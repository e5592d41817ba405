//! Finding the test record that stands for a vehicle of the label data set.
//!
//! The search has two steps. The first picks, by the words of the model
//! names, the group of test records most likely to describe the vehicle. The
//! second keeps the records of that group that agree with the vehicle on
//! transmission, drive and engine, and takes the configuration with the
//! longest run among them.

use vstd::prelude::*;
use crate::fixed::{decimal_of, Fixed};
use crate::records::{views_of, EpaRecord, LabelRecord, VehicleDataEPA, VehicleDataFE};
use crate::text::{
    chars_equal, chars_of, contains, contains_text, ends_with, ends_with_text, lemma_split_words,
    replace, replace_text, same_text, slice_chars, split, split_words, starts_with,
    starts_with_text, upper_chars, uppercase, words_view,
};
use crate::transmission::{decode_transmission, decoded, ParseError, TransmissionType};

verus! {

/// The form in which model names are compared: upper case, with `4WD`
/// written as `AWD`.
pub open spec fn normal_name(name: Seq<char>) -> Seq<char> {
    replace_text(uppercase(name), "4WD"@, "AWD"@)
}

/// The words of a model name in the form in which names are compared.
pub open spec fn name_words(name: Seq<char>) -> Seq<Seq<char>> {
    split_words(normal_name(name))
}

/// How many of `words` are among `known`.
pub open spec fn count_known(words: Seq<Seq<char>>, known: Seq<Seq<char>>) -> nat
    decreases words.len(),
{
    if words.len() == 0 {
        0
    } else {
        count_known(words.drop_last(), known) + if known.contains(words.last()) {
            1nat
        } else {
            0nat
        }
    }
}

/// How many words of the test model name `epa` occur in the label model name
/// `fe`.
pub open spec fn match_count(epa: Seq<char>, fe: Seq<char>) -> nat {
    count_known(name_words(epa), name_words(fe))
}

/// The numerator of the share in which `epa` matches `fe`: the square of
/// the number of matching words.
pub open spec fn match_numerator(epa: Seq<char>, fe: Seq<char>) -> nat {
    match_count(epa, fe) * match_count(epa, fe)
}

/// The denominator of the share in which `epa` matches `fe`: the product of
/// the two names' numbers of words.
pub open spec fn match_denominator(epa: Seq<char>, fe: Seq<char>) -> nat {
    name_words(epa).len() * name_words(fe).len()
}

/// Whether `a` matches `fe` in a strictly larger share than `b` does.
pub open spec fn matches_better(a: Seq<char>, b: Seq<char>, fe: Seq<char>) -> bool {
    match_numerator(a, fe) * match_denominator(b, fe) > match_numerator(b, fe) * match_denominator(
        a,
        fe,
    )
}

/// The end that a test group must have to belong to the vehicle's
/// certificate: the identifier of the vehicle's first certificate without
/// its first character. None where the vehicle has no certificate.
pub open spec fn certificate_suffix(fe: LabelRecord) -> Option<Seq<char>> {
    if fe.emissions_list.emissions_info.len() > 0 {
        let efid = fe.emissions_list.emissions_info[0].efid;
        if efid.len() >= 1 {
            Some(efid.skip(1))
        } else {
            Some(efid)
        }
    } else {
        None
    }
}

/// Whether the test record belongs to the vehicle's certificate.
pub open spec fn in_certificate_group(r: EpaRecord, fe: LabelRecord) -> bool {
    certificate_suffix(fe) matches Some(s) && ends_with_text(r.test_id, s)
}

/// Whether the record takes part in the search: every record in the search
/// over all records, the records of the vehicle's certificate in the
/// restricted one.
pub open spec fn takes_part(r: EpaRecord, fe: LabelRecord, restricted: bool) -> bool {
    !restricted || in_certificate_group(r, fe)
}

/// Whether `records[i]` is the best match: it takes part, some word of its
/// name matches, it matches strictly better than every record before it
/// that takes part, and none after it matches better than it.
pub open spec fn is_best_at(
    records: Seq<EpaRecord>,
    fe: LabelRecord,
    restricted: bool,
    i: int,
) -> bool {
    &&& 0 <= i < records.len()
    &&& takes_part(records[i], fe, restricted)
    &&& match_count(records[i].model, fe.model) > 0
    &&& forall|j: int|
        0 <= j < i && takes_part(#[trigger] records[j], fe, restricted) ==> matches_better(
            records[i].model,
            records[j].model,
            fe.model,
        )
    &&& forall|j: int|
        i < j < records.len() && takes_part(#[trigger] records[j], fe, restricted)
            ==> !matches_better(records[j].model, records[i].model, fe.model)
}

/// Whether the search finds a match at all.
pub open spec fn has_best(records: Seq<EpaRecord>, fe: LabelRecord, restricted: bool) -> bool {
    exists|i: int| is_best_at(records, fe, restricted, i)
}

/// The model name of the best match; the empty name where there is none.
pub open spec fn best_model(records: Seq<EpaRecord>, fe: LabelRecord, restricted: bool) -> Seq<
    char,
> {
    if has_best(records, fe, restricted) {
        records[choose|i: int| is_best_at(records, fe, restricted, i)].model
    } else {
        Seq::empty()
    }
}

/// Whether the record is of the group that the search settles on.
pub open spec fn in_matched_group(records: Seq<EpaRecord>, fe: LabelRecord, r: EpaRecord) -> bool {
    let overall = best_model(records, fe, false);
    let certified = best_model(records, fe, true);
    if certified == overall {
        in_certificate_group(r, fe) && r.model == overall
    } else {
        r.model == overall
    }
}

/// The group of test records most likely to describe the vehicle, in the
/// order of `records`: where the best match among the records of the
/// vehicle's certificate has the model name of the best match overall, the
/// certificate's records of that name; otherwise all records of the name of
/// the best match overall.
pub open spec fn matched_group(records: Seq<EpaRecord>, fe: LabelRecord) -> Seq<EpaRecord> {
    records.filter(|r: EpaRecord| in_matched_group(records, fe, r))
}

/// The record with its drive written the common way: a record whose model
/// name holds `4WD` or `AWD`, or whose drive holds `4-Wheel Drive`, has
/// drive code `A` and drive `All Wheel Drive`.
pub open spec fn normalized(r: EpaRecord) -> EpaRecord {
    if contains_text(r.model, "4WD"@) || contains_text(r.model, "AWD"@) || contains_text(
        r.drive,
        "4-Wheel Drive"@,
    ) {
        EpaRecord { drive_code: "A"@, drive: "All Wheel Drive"@, ..r }
    } else {
        r
    }
}

/// The displacement that the label record states; zero where it states none
/// that can be read.
pub open spec fn label_displacement(fe: LabelRecord) -> Fixed {
    match decimal_of(fe.displ) {
        Some(x) => x,
        None => Fixed { raw: 0 },
    }
}

/// Whether the vehicle of the label record is battery-electric.
pub open spec fn is_electric(fe: LabelRecord) -> bool {
    fe.alt_veh_type == "EV"@
}

/// Whether the test record, its drive written the common way, agrees with
/// the vehicle: it is no cold test, its transmission has the decoded type
/// (or, unless `by_code` asks for the code alone, a type with which the
/// vehicle's description begins) and the decoded number of gears, its drive
/// code is the first letter of the vehicle's drive, and its engine is the
/// vehicle's.
pub open spec fn is_candidate(
    r: EpaRecord,
    fe: LabelRecord,
    kind: TransmissionType,
    gears: u32,
    by_code: bool,
) -> bool {
    &&& !contains_text(r.test_fuel_type, "Cold CO"@)
    &&& (r.trany_code == kind.code_text() || (!by_code && starts_with_text(
        fe.trany,
        r.trany_type,
    )))
    &&& r.gears == gears
    &&& fe.drive.len() >= 1
    &&& r.drive_code == fe.drive.take(1)
    &&& if is_electric(fe) {
        r.displ.spec_rounds_to_zero() && r.cylinders.len() == 0
    } else {
        r.displ.spec_round_tenth() == label_displacement(fe) && r.cylinders == fe.cylinders
    }
}

/// The records of `group` that agree with the vehicle, each with its drive
/// written the common way, in the order of `group`.
pub open spec fn candidates(
    group: Seq<EpaRecord>,
    fe: LabelRecord,
    kind: TransmissionType,
    gears: u32,
    by_code: bool,
) -> Seq<EpaRecord> {
    group.map_values(|r: EpaRecord| normalized(r)).filter(
        |r: EpaRecord| is_candidate(r, fe, kind, gears, by_code),
    )
}

/// The state of a count of runs: the record of the longest run so far with
/// its length, and the record of the run at hand with its length.
pub struct Tally {
    pub best: EpaRecord,
    pub best_count: nat,
    pub current: EpaRecord,
    pub current_count: nat,
}

/// The count before any record: two empty records, both runs of length zero.
pub open spec fn tally_start() -> Tally {
    Tally {
        best: EpaRecord::empty(),
        best_count: 0,
        current: EpaRecord::empty(),
        current_count: 0,
    }
}

/// The count after one more record: a record equal to that of the run at
/// hand lengthens the run; another ends it, the ended run taking the place of
/// the longest where it is strictly longer.
pub open spec fn tally_step(t: Tally, r: EpaRecord) -> Tally {
    if r == t.current {
        Tally { current_count: t.current_count + 1, ..t }
    } else if t.current_count > t.best_count {
        Tally { best: t.current, best_count: t.current_count, current: r, current_count: 1 }
    } else {
        Tally { current: r, current_count: 1, ..t }
    }
}

/// The count over `hits`, taken in their order.
pub open spec fn tally_of(hits: Seq<EpaRecord>) -> Tally
    decreases hits.len(),
{
    if hits.len() == 0 {
        tally_start()
    } else {
        tally_step(tally_of(hits.drop_last()), hits.last())
    }
}

/// The configuration with the first longest run of equal records in `hits`;
/// the empty record where `hits` is empty.
pub open spec fn plurality(hits: Seq<EpaRecord>) -> EpaRecord {
    let t = tally_of(hits);
    if t.current_count > t.best_count {
        t.current
    } else {
        t.best
    }
}

/// The test record that stands for the vehicle among `records`, or the
/// reason for which the vehicle's transmission cannot be read.
pub open spec fn matched_record(records: Seq<EpaRecord>, fe: LabelRecord, by_code: bool) -> Result<
    EpaRecord,
    ParseError,
> {
    match decoded(fe.trany) {
        Ok((kind, gears)) => Ok(
            plurality(candidates(matched_group(records, fe), fe, kind, gears, by_code)),
        ),
        Err(e) => Err(e),
    }
}

fn word_known(word: &Vec<char>, known: &Vec<Vec<char>>) -> (found: bool)
    ensures
        found == words_view(known@).contains(word@),
{
    let mut i: usize = 0;
    while i < known.len()
        invariant
            i <= known.len(),
            forall|j: int| 0 <= j < i ==> words_view(known@)[j] != word@,
        decreases known.len() - i,
    {
        if chars_equal(&known[i], word) {
            assert(words_view(known@)[i as int] == word@);
            return true;
        }
        i += 1;
    }
    false
}

fn count_hits(words: &Vec<Vec<char>>, known: &Vec<Vec<char>>) -> (hits: usize)
    ensures
        hits == count_known(words_view(words@), words_view(known@)),
        hits <= words.len(),
{
    let mut hits: usize = 0;
    let mut i: usize = 0;
    while i < words.len()
        invariant
            i <= words.len(),
            hits <= i,
            hits == count_known(words_view(words@).take(i as int), words_view(known@)),
        decreases words.len() - i,
    {
        proof {
            let next = words_view(words@).take(i + 1);
            assert(next.drop_last() =~= words_view(words@).take(i as int));
            assert(next.last() == words@[i as int]@);
        }
        if word_known(&words[i], known) {
            hits += 1;
        }
        i += 1;
    }
    proof {
        assert(words_view(words@).take(words.len() as int) =~= words_view(words@));
    }
    hits
}

/// The words of a model name in the form in which names are compared.
pub fn name_words_of(name: &str) -> (words: Vec<Vec<char>>)
    ensures
        words_view(words@) == name_words(name@),
        words.len() >= 1,
{
    let upper = upper_chars(name);
    let normal = replace(&upper, &chars_of("4WD"), &chars_of("AWD"));
    split(&normal)
}

/// The share in which a test model name matches the label model name, as
/// the number of matching words and the number of words of the test name.
struct NameScore {
    hits: usize,
    words: usize,
}

/// Comparing two fractions by whole parts and remainders.
proof fn lemma_compare_by_parts(a: int, n: int, b: int, m: int)
    requires
        0 <= a,
        0 <= b,
        0 < n,
        0 < m,
    ensures
        a * m > b * n <==> (a / n > b / m || (a / n == b / m && (a % n) * m > (b % m) * n)),
{
    let q1 = a / n;
    let r1 = a % n;
    let q2 = b / m;
    let r2 = b % m;
    vstd::arithmetic::div_mod::lemma_fundamental_div_mod(a, n);
    vstd::arithmetic::div_mod::lemma_fundamental_div_mod(b, m);
    assert(0 <= r1 < n && 0 <= r2 < m);
    let big = n * m;
    assert(a * m == q1 * big + r1 * m) by (nonlinear_arith)
        requires
            a == n * q1 + r1,
            big == n * m,
    ;
    assert(b * n == q2 * big + r2 * n) by (nonlinear_arith)
        requires
            b == m * q2 + r2,
            big == n * m,
    ;
    assert(0 <= r1 * m < big) by (nonlinear_arith)
        requires
            0 <= r1 < n,
            0 < m,
            big == n * m,
    ;
    assert(0 <= r2 * n < big) by (nonlinear_arith)
        requires
            0 <= r2 < m,
            0 < n,
            big == n * m,
    ;
    if q1 > q2 {
        assert(q1 * big >= q2 * big + big) by (nonlinear_arith)
            requires
                q1 >= q2 + 1,
                big > 0,
        ;
    } else if q1 < q2 {
        assert(q2 * big >= q1 * big + big) by (nonlinear_arith)
            requires
                q2 >= q1 + 1,
                big > 0,
        ;
    }
}

/// Whether the share `a` is strictly larger than the share `b`.
fn score_above(a: &NameScore, b: &NameScore) -> (above: bool)
    requires
        a.words >= 1,
        b.words >= 1,
    ensures
        above == (a.hits * a.hits * b.words > b.hits * b.hits * a.words),
{
    assert(a.hits * a.hits <= 0xffff_ffff_ffff_ffff * 0xffff_ffff_ffff_ffff) by (nonlinear_arith)
        requires
            0 <= a.hits <= 0xffff_ffff_ffff_ffff,
    ;
    assert(b.hits * b.hits <= 0xffff_ffff_ffff_ffff * 0xffff_ffff_ffff_ffff) by (nonlinear_arith)
        requires
            0 <= b.hits <= 0xffff_ffff_ffff_ffff,
    ;
    let sa: u128 = (a.hits as u128) * (a.hits as u128);
    let sb: u128 = (b.hits as u128) * (b.hits as u128);
    let n: u128 = a.words as u128;
    let m: u128 = b.words as u128;
    let q1 = sa / n;
    let r1 = sa % n;
    let q2 = sb / m;
    let r2 = sb % m;
    proof {
        lemma_compare_by_parts(sa as int, n as int, sb as int, m as int);
        assert(r1 * m <= 0xffff_ffff_ffff_ffff * 0xffff_ffff_ffff_ffff) by (nonlinear_arith)
            requires
                0 <= r1 <= 0xffff_ffff_ffff_ffff,
                0 <= m <= 0xffff_ffff_ffff_ffff,
        ;
        assert(r2 * n <= 0xffff_ffff_ffff_ffff * 0xffff_ffff_ffff_ffff) by (nonlinear_arith)
            requires
                0 <= r2 <= 0xffff_ffff_ffff_ffff,
                0 <= n <= 0xffff_ffff_ffff_ffff,
        ;
    }
    q1 > q2 || (q1 == q2 && r1 * m > r2 * n)
}

/// The comparison of shares does not depend on the label name's number of
/// words.
proof fn lemma_better_by_scores(ha: nat, wa: nat, hb: nat, wb: nat, f: nat)
    requires
        f >= 1,
    ensures
        (ha * ha) * (wb * f) > (hb * hb) * (wa * f) <==> ha * ha * wb > hb * hb * wa,
{
    assert((ha * ha) * (wb * f) == (ha * ha * wb) * f) by (nonlinear_arith);
    assert((hb * hb) * (wa * f) == (hb * hb * wa) * f) by (nonlinear_arith);
    let x = ha * ha * wb;
    let y = hb * hb * wa;
    assert(x * f > y * f <==> x > y) by (nonlinear_arith)
        requires
            f >= 1,
    ;
}

/// The order of shares carries over a share that is no larger.
proof fn lemma_better_chain(a: Seq<char>, b: Seq<char>, c: Seq<char>, fe: Seq<char>)
    requires
        matches_better(a, b, fe),
        !matches_better(c, b, fe),
    ensures
        matches_better(a, c, fe),
{
    lemma_split_words(normal_name(a));
    lemma_split_words(normal_name(b));
    lemma_split_words(normal_name(c));
    lemma_split_words(normal_name(fe));
    let na = match_numerator(a, fe) as int;
    let nb = match_numerator(b, fe) as int;
    let nc = match_numerator(c, fe) as int;
    let da = match_denominator(a, fe) as int;
    let db = match_denominator(b, fe) as int;
    let dc = match_denominator(c, fe) as int;
    assert(da > 0 && db > 0 && dc > 0) by (nonlinear_arith)
        requires
            da == name_words(a).len() * name_words(fe).len(),
            db == name_words(b).len() * name_words(fe).len(),
            dc == name_words(c).len() * name_words(fe).len(),
            name_words(a).len() >= 1,
            name_words(b).len() >= 1,
            name_words(c).len() >= 1,
            name_words(fe).len() >= 1,
    ;
    assert(na * dc > nc * da) by (nonlinear_arith)
        requires
            na * db > nb * da,
            nc * db <= nb * dc,
            da > 0,
            db > 0,
            dc > 0,
            na >= 0,
            nb >= 0,
            nc >= 0,
    ;
}

/// The order of shares is transitive.
proof fn lemma_better_transitive(a: Seq<char>, b: Seq<char>, c: Seq<char>, fe: Seq<char>)
    requires
        matches_better(a, b, fe),
        matches_better(b, c, fe),
    ensures
        matches_better(a, c, fe),
{
    lemma_split_words(normal_name(a));
    lemma_split_words(normal_name(b));
    lemma_split_words(normal_name(c));
    lemma_split_words(normal_name(fe));
    let na = match_numerator(a, fe) as int;
    let nb = match_numerator(b, fe) as int;
    let nc = match_numerator(c, fe) as int;
    let da = match_denominator(a, fe) as int;
    let db = match_denominator(b, fe) as int;
    let dc = match_denominator(c, fe) as int;
    assert(da > 0 && db > 0 && dc > 0) by (nonlinear_arith)
        requires
            da == name_words(a).len() * name_words(fe).len(),
            db == name_words(b).len() * name_words(fe).len(),
            dc == name_words(c).len() * name_words(fe).len(),
            name_words(a).len() >= 1,
            name_words(b).len() >= 1,
            name_words(c).len() >= 1,
            name_words(fe).len() >= 1,
    ;
    assert(na * dc > nc * da) by (nonlinear_arith)
        requires
            na * db > nb * da,
            nb * dc > nc * db,
            da > 0,
            db > 0,
            dc > 0,
            na >= 0,
            nb >= 0,
            nc >= 0,
    ;
}

/// A name of which some word matches is a better match than one of which
/// none does.
proof fn lemma_better_than_none(a: Seq<char>, b: Seq<char>, fe: Seq<char>)
    requires
        match_count(a, fe) > 0,
        match_count(b, fe) == 0,
    ensures
        matches_better(a, b, fe),
        !matches_better(b, a, fe),
{
    lemma_split_words(normal_name(a));
    lemma_split_words(normal_name(b));
    lemma_split_words(normal_name(fe));
    let na = match_numerator(a, fe) as int;
    let da = match_denominator(a, fe) as int;
    let db = match_denominator(b, fe) as int;
    assert(na > 0) by (nonlinear_arith)
        requires
            na == match_count(a, fe) * match_count(a, fe),
            match_count(a, fe) > 0,
    ;
    assert(db > 0) by (nonlinear_arith)
        requires
            db == name_words(b).len() * name_words(fe).len(),
            name_words(b).len() >= 1,
            name_words(fe).len() >= 1,
    ;
    assert(da > 0) by (nonlinear_arith)
        requires
            da == name_words(a).len() * name_words(fe).len(),
            name_words(a).len() >= 1,
            name_words(fe).len() >= 1,
    ;
    assert(na * db > 0) by (nonlinear_arith)
        requires
            na > 0,
            db > 0,
    ;
    assert(match_numerator(b, fe) == 0);
    assert(match_numerator(b, fe) * match_denominator(a, fe) == 0) by (nonlinear_arith)
        requires
            match_numerator(b, fe) == 0,
    ;
}

/// There is at most one best match.
pub proof fn lemma_best_unique(
    records: Seq<EpaRecord>,
    fe: LabelRecord,
    restricted: bool,
    i: int,
    j: int,
)
    requires
        is_best_at(records, fe, restricted, i),
        is_best_at(records, fe, restricted, j),
    ensures
        i == j,
{
}

/// The model name of a best match is what `best_model` gives.
pub proof fn lemma_best_model_is(records: Seq<EpaRecord>, fe: LabelRecord, restricted: bool, i: int)
    requires
        is_best_at(records, fe, restricted, i),
    ensures
        best_model(records, fe, restricted) == records[i].model,
{
    let k = choose|k: int| is_best_at(records, fe, restricted, k);
    lemma_best_unique(records, fe, restricted, i, k);
}

/// The end that a test group must have to belong to the vehicle's
/// certificate.
fn certificate_suffix_of(fe: &VehicleDataFE) -> (suffix: Option<Vec<char>>)
    ensures
        suffix is Some <==> certificate_suffix(fe@) is Some,
        suffix matches Some(s) ==> certificate_suffix(fe@) == Some(s@),
{
    if fe.emissions_list.emissions_info.len() > 0 {
        let efid = chars_of(fe.emissions_list.emissions_info[0].efid.as_str());
        assert(views_of(fe.emissions_list.emissions_info@)[0] == fe.emissions_list.emissions_info@[0]@);
        if efid.len() >= 1 {
            let s = slice_chars(&efid, 1, efid.len());
            assert(efid@.subrange(1, efid.len() as int) =~= efid@.skip(1));
            Some(s)
        } else {
            Some(efid)
        }
    } else {
        None
    }
}

fn record_takes_part(r: &VehicleDataEPA, suffix: &Option<Vec<char>>, restricted: bool) -> (b: bool)
    ensures
        b == (!restricted || (suffix matches Some(s) && ends_with_text(r.test_id@, s@))),
{
    if !restricted {
        true
    } else {
        match suffix {
            Some(s) => ends_with(&chars_of(r.test_id.as_str()), s),
            None => false,
        }
    }
}

/// The position of the best match among `records`.
fn best_match(records: &[VehicleDataEPA], fe: &VehicleDataFE, restricted: bool) -> (r: Option<
    usize,
>)
    ensures
        r matches Some(i) ==> is_best_at(views_of(records@), fe@, restricted, i as int),
        r is None ==> !has_best(views_of(records@), fe@, restricted),
{
    let fe_words = name_words_of(fe.model.as_str());
    let suffix = certificate_suffix_of(fe);
    let ghost all = views_of(records@);
    let ghost label = fe@;
    let mut best: Option<usize> = None;
    let mut best_score = NameScore { hits: 0, words: 1 };
    let mut k: usize = 0;
    while k < records.len()
        invariant
            k <= records.len(),
            all == views_of(records@),
            label == fe@,
            words_view(fe_words@) == name_words(label.model),
            fe_words.len() >= 1,
            suffix is Some <==> certificate_suffix(label) is Some,
            suffix matches Some(s) ==> certificate_suffix(label) == Some(s@),
            best matches Some(b) ==> {
                &&& b < k
                &&& best_score.hits == match_count(all[b as int].model, label.model)
                &&& best_score.words == name_words(all[b as int].model).len()
                &&& best_score.words >= 1
                &&& is_best_at(all.take(k as int), label, restricted, b as int)
            },
            best is None ==> forall|j: int|
                0 <= j < k && takes_part(#[trigger] all[j], label, restricted) ==> match_count(
                    all[j].model,
                    label.model,
                ) == 0,
        decreases records.len() - k,
    {
        let r = &records[k];
        let ghost rv = all[k as int];
        assert(rv == r@);
        let ghost before = all.take(k as int);
        let ghost after = all.take(k + 1);
        let part = record_takes_part(r, &suffix, restricted);
        assert(part == takes_part(rv, label, restricted));
        let mut replaced = false;
        if part {
            let words = name_words_of(r.model.as_str());
            let hits = count_hits(&words, &fe_words);
            let score = NameScore { hits, words: words.len() };
            match best {
                None => {
                    if hits > 0 {
                        proof {
                            assert forall|j: int|
                                0 <= j < k && takes_part(
                                    #[trigger] after[j],
                                    label,
                                    restricted,
                                ) implies matches_better(
                                after[k as int].model,
                                after[j].model,
                                label.model,
                            ) by {
                                assert(after[j] == all[j]);
                                lemma_better_than_none(rv.model, all[j].model, label.model);
                            }
                        }
                        replaced = true;
                    }
                },
                Some(b) => {
                    let above = score_above(&score, &best_score);
                    proof {
                        let bv = all[b as int];
                        lemma_split_words(normal_name(label.model));
                        lemma_better_by_scores(
                            hits as nat,
                            words.len() as nat,
                            best_score.hits as nat,
                            best_score.words as nat,
                            name_words(label.model).len(),
                        );
                        assert(above == matches_better(rv.model, bv.model, label.model));
                        assert(before[b as int] == bv);
                        if above {
                            assert(match_count(rv.model, label.model) > 0) by {
                                if match_count(rv.model, label.model) == 0 {
                                    lemma_better_than_none(bv.model, rv.model, label.model);
                                }
                            }
                            assert forall|j: int|
                                0 <= j < k && takes_part(
                                    #[trigger] after[j],
                                    label,
                                    restricted,
                                ) implies matches_better(
                                after[k as int].model,
                                after[j].model,
                                label.model,
                            ) by {
                                assert(after[j] == all[j]);
                                assert(before[j] == all[j]);
                                if j < b {
                                    lemma_better_transitive(
                                        rv.model,
                                        bv.model,
                                        all[j].model,
                                        label.model,
                                    );
                                } else if j > b {
                                    lemma_better_chain(
                                        rv.model,
                                        bv.model,
                                        all[j].model,
                                        label.model,
                                    );
                                }
                            }
                        } else {
                            assert forall|j: int|
                                b < j < after.len() && takes_part(
                                    #[trigger] after[j],
                                    label,
                                    restricted,
                                ) implies !matches_better(
                                after[j].model,
                                after[b as int].model,
                                label.model,
                            ) by {
                                assert(after[j] == all[j]);
                                if j < k {
                                    assert(before[j] == all[j]);
                                }
                            }
                            assert forall|j: int|
                                0 <= j < b && takes_part(
                                    #[trigger] after[j],
                                    label,
                                    restricted,
                                ) implies matches_better(
                                after[b as int].model,
                                after[j].model,
                                label.model,
                            ) by {
                                assert(after[j] == all[j]);
                                assert(before[j] == all[j]);
                            }
                        }
                    }
                    if above {
                        replaced = true;
                    }
                },
            }
            if replaced {
                best = Some(k);
                best_score = score;
                assert(after[k as int] == rv);
                assert(is_best_at(after, label, restricted, k as int));
            }
        } else {
            proof {
                if let Some(b) = best {
                    assert(before[b as int] == all[b as int]);
                    assert forall|j: int|
                        b < j < after.len() && takes_part(
                            #[trigger] after[j],
                            label,
                            restricted,
                        ) implies !matches_better(
                        after[j].model,
                        after[b as int].model,
                        label.model,
                    ) by {
                        assert(after[j] == all[j]);
                        if j < k {
                            assert(before[j] == all[j]);
                        }
                    }
                    assert forall|j: int|
                        0 <= j < b && takes_part(
                            #[trigger] after[j],
                            label,
                            restricted,
                        ) implies matches_better(
                        after[b as int].model,
                        after[j].model,
                        label.model,
                    ) by {
                        assert(after[j] == all[j]);
                        assert(before[j] == all[j]);
                    }
                }
            }
        }
        k += 1;
    }
    proof {
        assert(all.take(records.len() as int) =~= all);
    }
    best
}

/// The model name of the best match among `records`; the empty name where
/// there is none.
pub fn best_model_name(records: &[VehicleDataEPA], fe: &VehicleDataFE, restricted: bool) -> (name:
    Vec<char>)
    ensures
        name@ == best_model(views_of(records@), fe@, restricted),
{
    match best_match(records, fe, restricted) {
        Some(i) => {
            proof {
                lemma_best_model_is(views_of(records@), fe@, restricted, i as int);
            }
            chars_of(records[i].model.as_str())
        },
        None => Vec::new(),
    }
}

/// The group of test records most likely to describe the vehicle.
pub fn best_match_group(records: &[VehicleDataEPA], fe: &VehicleDataFE) -> (group: Vec<
    VehicleDataEPA,
>)
    ensures
        views_of(group@) == matched_group(views_of(records@), fe@),
{
    let overall = best_model_name(records, fe, false);
    let certified = best_model_name(records, fe, true);
    let agree = chars_equal(&certified, &overall);
    let suffix = certificate_suffix_of(fe);
    let ghost all = views_of(records@);
    let ghost label = fe@;
    let ghost wanted = |r: EpaRecord| in_matched_group(all, label, r);
    let mut group: Vec<VehicleDataEPA> = Vec::new();
    let mut k: usize = 0;
    proof {
        assert(all.take(0) =~= Seq::<EpaRecord>::empty());
        reveal(Seq::filter);
        assert(views_of(group@) =~= all.take(0).filter(wanted));
    }
    while k < records.len()
        invariant
            k <= records.len(),
            all == views_of(records@),
            label == fe@,
            wanted == (|r: EpaRecord| in_matched_group(all, label, r)),
            overall@ == best_model(all, label, false),
            agree == (best_model(all, label, true) == best_model(all, label, false)),
            suffix is Some <==> certificate_suffix(label) is Some,
            suffix matches Some(s) ==> certificate_suffix(label) == Some(s@),
            views_of(group@) == all.take(k as int).filter(wanted),
        decreases records.len() - k,
    {
        let r = &records[k];
        assert(all[k as int] == r@);
        let same_name = chars_equal(&chars_of(r.model.as_str()), &overall);
        let keep = if agree {
            record_takes_part(r, &suffix, true) && same_name
        } else {
            same_name
        };
        proof {
            assert(keep == wanted(r@));
            assert(all.take(k + 1) =~= all.take(k as int).push(r@));
            all.take(k as int).lemma_filter_push(r@, wanted);
        }
        if keep {
            let ghost before = views_of(group@);
            group.push(r.clone());
            assert(views_of(group@) =~= before.push(r@));
        }
        k += 1;
    }
    proof {
        assert(all.take(records.len() as int) =~= all);
    }
    group
}

/// The record with its drive written the common way.
pub fn normalize(r: &VehicleDataEPA) -> (n: VehicleDataEPA)
    ensures
        n@ == normalized(r@),
{
    let model = chars_of(r.model.as_str());
    let drive = chars_of(r.drive.as_str());
    let mut n = r.clone();
    if contains(&model, &chars_of("4WD")) || contains(&model, &chars_of("AWD")) || contains(
        &drive,
        &chars_of("4-Wheel Drive"),
    ) {
        n.drive_code = "A".to_owned();
        n.drive = "All Wheel Drive".to_owned();
    }
    n
}

/// Whether the test record, its drive written the common way, agrees with
/// the vehicle.
pub fn agrees(
    r: &VehicleDataEPA,
    fe: &VehicleDataFE,
    kind: TransmissionType,
    gears: u32,
    by_code: bool,
) -> (b: bool)
    ensures
        b == is_candidate(r@, fe@, kind, gears, by_code),
        contains_text(r@.test_fuel_type, "Cold CO"@) ==> !b,
        is_electric(fe@) && r@.cylinders.len() > 0 ==> !b,
{
    let fuel = chars_of(r.test_fuel_type.as_str());
    if contains(&fuel, &chars_of("Cold CO")) {
        return false;
    }
    let trany = chars_of(fe.trany.as_str());
    if !(same_text(r.trany_code.as_str(), kind.code()) || (!by_code && starts_with(
        &trany,
        &chars_of(r.trany_type.as_str()),
    ))) {
        return false;
    }
    if r.gears != gears {
        return false;
    }
    let drive = chars_of(fe.drive.as_str());
    if drive.len() < 1 {
        return false;
    }
    let first = slice_chars(&drive, 0, 1);
    assert(drive@.subrange(0, 1) =~= drive@.take(1));
    if !chars_equal(&chars_of(r.drive_code.as_str()), &first) {
        return false;
    }
    if same_text(fe.alt_veh_type.as_str(), "EV") {
        r.displ.rounds_to_zero() && r.cylinders.as_str().unicode_len() == 0
    } else {
        let stated = match Fixed::parse(&chars_of(fe.displ.as_str())) {
            Some(x) => x,
            None => Fixed::zero(),
        };
        r.displ.round_tenth() == stated && same_text(r.cylinders.as_str(), fe.cylinders.as_str())
    }
}

/// The winner of a count is the empty record or one of the counted.
pub proof fn lemma_plurality_member(hits: Seq<EpaRecord>)
    ensures
        plurality(hits) == EpaRecord::empty() || hits.contains(plurality(hits)),
{
    lemma_tally_members(hits);
}

proof fn lemma_tally_members(hits: Seq<EpaRecord>)
    ensures
        tally_of(hits).best == EpaRecord::empty() || hits.contains(tally_of(hits).best),
        tally_of(hits).current == EpaRecord::empty() || hits.contains(tally_of(hits).current),
    decreases hits.len(),
{
    if hits.len() > 0 {
        let before = hits.drop_last();
        lemma_tally_members(before);
        let t = tally_of(before);
        assert(hits.last() == hits[hits.len() - 1]);
        if before.contains(t.best) {
            let i = choose|i: int| 0 <= i < before.len() && before[i] == t.best;
            assert(hits[i] == t.best);
        }
        if before.contains(t.current) {
            let i = choose|i: int| 0 <= i < before.len() && before[i] == t.current;
            assert(hits[i] == t.current);
        }
    }
}

/// Each candidate agrees with the vehicle and is some record of the group
/// with its drive written the common way.
pub proof fn lemma_candidates(
    group: Seq<EpaRecord>,
    fe: LabelRecord,
    kind: TransmissionType,
    gears: u32,
    by_code: bool,
    r: EpaRecord,
)
    requires
        candidates(group, fe, kind, gears, by_code).contains(r),
    ensures
        is_candidate(r, fe, kind, gears, by_code),
        exists|i: int| 0 <= i < group.len() && r == normalized(#[trigger] group[i]),
{
    let mapped = group.map_values(|r: EpaRecord| normalized(r));
    let pred = |r: EpaRecord| is_candidate(r, fe, kind, gears, by_code);
    let kept = mapped.filter(pred);
    let i = choose|i: int| 0 <= i < kept.len() && kept[i] == r;
    mapped.lemma_filter_pred(pred, i);
    mapped.lemma_filter_contains_rev(pred, r);
    let j = choose|j: int| 0 <= j < mapped.len() && mapped[j] == r;
    assert(r == normalized(group[j]));
}

/// The configuration with the longest run among the records of `group` that
/// agree with the vehicle; the empty record where none agrees.
pub fn reconcile(
    group: &Vec<VehicleDataEPA>,
    fe: &VehicleDataFE,
    kind: TransmissionType,
    gears: u32,
    by_code: bool,
) -> (winner: VehicleDataEPA)
    ensures
        winner@ == plurality(candidates(views_of(group@), fe@, kind, gears, by_code)),
        !contains_text(winner@.test_fuel_type, "Cold CO"@),
        is_electric(fe@) ==> winner@.cylinders.len() == 0,
        contains_text(winner@.model, "4WD"@) || contains_text(winner@.model, "AWD"@) ==> winner@
            == normalized(winner@) && winner@.drive_code == "A"@ && winner@.drive
            == "All Wheel Drive"@,
{
    let ghost all = views_of(group@);
    let ghost label = fe@;
    let ghost fix = |r: EpaRecord| normalized(r);
    let ghost pred = |r: EpaRecord| is_candidate(r, label, kind, gears, by_code);
    let mut best = VehicleDataEPA::default();
    let mut best_count: usize = 0;
    let mut current = VehicleDataEPA::default();
    let mut current_count: usize = 0;
    let mut k: usize = 0;
    proof {
        assert(all.take(0).map_values(fix) =~= Seq::<EpaRecord>::empty());
        reveal(Seq::filter);
        assert(all.take(0).map_values(fix).filter(pred) =~= Seq::<EpaRecord>::empty());
    }
    while k < group.len()
        invariant
            k <= group.len(),
            all == views_of(group@),
            label == fe@,
            fix == (|r: EpaRecord| normalized(r)),
            pred == (|r: EpaRecord| is_candidate(r, label, kind, gears, by_code)),
            current_count <= k,
            best_count <= k,
            tally_of(all.take(k as int).map_values(fix).filter(pred)) == (Tally {
                best: best@,
                best_count: best_count as nat,
                current: current@,
                current_count: current_count as nat,
            }),
        decreases group.len() - k,
    {
        let r = normalize(&group[k]);
        assert(all[k as int] == group@[k as int]@);
        let ghost seen = all.take(k as int).map_values(fix);
        proof {
            assert(all.take(k + 1).map_values(fix) =~= seen.push(r@));
            seen.lemma_filter_push(r@, pred);
        }
        if agrees(&r, fe, kind, gears, by_code) {
            proof {
                let hits = seen.filter(pred).push(r@);
                assert(hits.drop_last() =~= seen.filter(pred));
                assert(hits.last() == r@);
            }
            if r == current {
                current_count += 1;
            } else {
                if current_count > best_count {
                    best = current;
                    best_count = current_count;
                }
                current = r;
                current_count = 1;
            }
        }
        k += 1;
    }
    proof {
        assert(all.take(group.len() as int) =~= all);
        let hits = candidates(all, label, kind, gears, by_code);
        lemma_plurality_member(hits);
        let w = plurality(hits);
        reveal_strlit("Cold CO");
        reveal_strlit("4WD");
        reveal_strlit("AWD");
        if hits.contains(w) {
            lemma_candidates(all, label, kind, gears, by_code, w);
        } else {
            assert(!contains_text(w.test_fuel_type, "Cold CO"@));
            assert(!contains_text(w.model, "4WD"@));
            assert(!contains_text(w.model, "AWD"@));
        }
    }
    if current_count > best_count {
        current
    } else {
        best
    }
}

fn find_record(fegov: &VehicleDataFE, epatest_data: &[VehicleDataEPA], by_code: bool) -> (r:
    Result<VehicleDataEPA, ParseError>)
    ensures
        r matches Ok(found) ==> matched_record(views_of(epatest_data@), fegov@, by_code) == Ok::<
            EpaRecord,
            ParseError,
        >(found@),
        r matches Err(e) ==> matched_record(views_of(epatest_data@), fegov@, by_code) == Err::<
            EpaRecord,
            ParseError,
        >(e),
        r matches Ok(found) ==> !contains_text(found@.test_fuel_type, "Cold CO"@),
        r matches Ok(found) ==> (is_electric(fegov@) ==> found@.cylinders.len() == 0),
        r matches Ok(found) ==> (contains_text(found@.model, "4WD"@) || contains_text(
            found@.model,
            "AWD"@,
        ) ==> found@.drive_code == "A"@ && found@.drive == "All Wheel Drive"@),
{
    match decode_transmission(fegov.trany.as_str()) {
        Ok((kind, gears)) => {
            let group = best_match_group(epatest_data, fegov);
            Ok(reconcile(&group, fegov, kind, gears, by_code))
        },
        Err(e) => Err(e),
    }
}

/// Finds the test record that stands for the vehicle `fegov` among
/// `epatest_data`. A record agrees on the transmission where it has the
/// decoded type or a type with which the vehicle's description begins.
///
/// Gives the empty record where no record of the best matching group agrees
/// with the vehicle, and the reason where the vehicle's transmission cannot
/// be read. Never gives a record of a cold test; for a battery-electric
/// vehicle, never one with cylinders; and a record whose model name holds
/// `4WD` or `AWD` comes with its drive written as all-wheel drive.
pub fn match_epatest_with_fegov(fegov: &VehicleDataFE, epatest_data: &[VehicleDataEPA]) -> (r:
    Result<VehicleDataEPA, ParseError>)
    ensures
        r matches Ok(found) ==> matched_record(views_of(epatest_data@), fegov@, false) == Ok::<
            EpaRecord,
            ParseError,
        >(found@),
        r matches Err(e) ==> matched_record(views_of(epatest_data@), fegov@, false) == Err::<
            EpaRecord,
            ParseError,
        >(e),
        r matches Ok(found) ==> !contains_text(found@.test_fuel_type, "Cold CO"@),
        r matches Ok(found) ==> (is_electric(fegov@) ==> found@.cylinders.len() == 0),
        r matches Ok(found) ==> (contains_text(found@.model, "4WD"@) || contains_text(
            found@.model,
            "AWD"@,
        ) ==> found@.drive_code == "A"@ && found@.drive == "All Wheel Drive"@),
{
    find_record(fegov, epatest_data, false)
}

/// Finds the test record that stands for the vehicle `fe_gov_vehicle_data`
/// among `epatest_data`, as [`match_epatest_with_fegov`] does, but a record
/// agrees on the transmission only where it has the decoded type.
pub fn get_epa_data(fe_gov_vehicle_data: &VehicleDataFE, epatest_data: &[VehicleDataEPA]) -> (r:
    Result<VehicleDataEPA, ParseError>)
    ensures
        r matches Ok(found) ==> matched_record(views_of(epatest_data@), fe_gov_vehicle_data@, true)
            == Ok::<EpaRecord, ParseError>(found@),
        r matches Err(e) ==> matched_record(views_of(epatest_data@), fe_gov_vehicle_data@, true)
            == Err::<EpaRecord, ParseError>(e),
        r matches Ok(found) ==> !contains_text(found@.test_fuel_type, "Cold CO"@),
        r matches Ok(found) ==> (is_electric(fe_gov_vehicle_data@) ==> found@.cylinders.len() == 0),
        r matches Ok(found) ==> (contains_text(found@.model, "4WD"@) || contains_text(
            found@.model,
            "AWD"@,
        ) ==> found@.drive_code == "A"@ && found@.drive == "All Wheel Drive"@),
{
    find_record(fe_gov_vehicle_data, epatest_data, true)
}

/// Whether only one model name matches best: the best match matches
/// strictly better than every record of another model name that takes part.
pub open spec fn single_best_name(records: Seq<EpaRecord>, fe: LabelRecord, restricted: bool) -> bool {
    forall|i: int, j: int|
        is_best_at(records, fe, restricted, i) && 0 <= j < records.len() && takes_part(
            #[trigger] records[j],
            fe,
            restricted,
        ) && records[j].model != (#[trigger] records[i]).model ==> matches_better(
            records[i].model,
            records[j].model,
            fe.model,
        )
}

/// No name matches better than itself, and of two names at most one matches
/// better than the other.
proof fn lemma_better_asymmetric(a: Seq<char>, b: Seq<char>, fe: Seq<char>)
    ensures
        !matches_better(a, a, fe),
        matches_better(a, b, fe) ==> !matches_better(b, a, fe),
{
}

/// Among the first `n` records, there is a best match as soon as some word
/// of the name of a record that takes part matches.
proof fn lemma_best_exists(records: Seq<EpaRecord>, fe: LabelRecord, restricted: bool, n: int)
    requires
        0 <= n <= records.len(),
    ensures
        (exists|j: int|
            0 <= j < n && takes_part(#[trigger] records[j], fe, restricted) && match_count(
                records[j].model,
                fe.model,
            ) > 0) ==> has_best(records.take(n), fe, restricted),
    decreases n,
{
    if n > 0 {
        lemma_best_exists(records, fe, restricted, n - 1);
        let before = records.take(n - 1);
        let after = records.take(n);
        let r = records[n - 1];
        assert(after[n - 1] == r);
        let earlier = exists|j: int|
            0 <= j < n - 1 && takes_part(#[trigger] records[j], fe, restricted) && match_count(
                records[j].model,
                fe.model,
            ) > 0;
        if earlier {
            let b = choose|b: int| is_best_at(before, fe, restricted, b);
            assert(before[b] == after[b]);
            if takes_part(r, fe, restricted) && matches_better(r.model, before[b].model, fe.model) {
                assert(match_count(r.model, fe.model) > 0) by {
                    if match_count(r.model, fe.model) == 0 {
                        lemma_better_than_none(before[b].model, r.model, fe.model);
                    }
                }
                assert forall|j: int|
                    0 <= j < n - 1 && takes_part(
                        #[trigger] after[j],
                        fe,
                        restricted,
                    ) implies matches_better(after[n - 1].model, after[j].model, fe.model) by {
                    assert(before[j] == after[j]);
                    if j < b {
                        lemma_better_transitive(
                            r.model,
                            before[b].model,
                            before[j].model,
                            fe.model,
                        );
                    } else if j > b {
                        lemma_better_chain(r.model, before[b].model, before[j].model, fe.model);
                    }
                }
                assert(is_best_at(after, fe, restricted, n - 1));
            } else {
                assert forall|j: int|
                    b < j < after.len() && takes_part(
                        #[trigger] after[j],
                        fe,
                        restricted,
                    ) implies !matches_better(after[j].model, after[b].model, fe.model) by {
                    if j < n - 1 {
                        assert(before[j] == after[j]);
                    }
                }
                assert forall|j: int|
                    0 <= j < b && takes_part(
                        #[trigger] after[j],
                        fe,
                        restricted,
                    ) implies matches_better(after[b].model, after[j].model, fe.model) by {
                    assert(before[j] == after[j]);
                }
                assert(is_best_at(after, fe, restricted, b));
            }
        } else if takes_part(r, fe, restricted) && match_count(r.model, fe.model) > 0 {
            assert forall|j: int|
                0 <= j < n - 1 && takes_part(
                    #[trigger] after[j],
                    fe,
                    restricted,
                ) implies matches_better(after[n - 1].model, after[j].model, fe.model) by {
                assert(after[j] == records[j]);
                lemma_better_than_none(r.model, records[j].model, fe.model);
            }
            assert(is_best_at(after, fe, restricted, n - 1));
        }
    }
}

/// There is a best match exactly where some word of the name of a record
/// that takes part matches.
pub proof fn lemma_has_best(records: Seq<EpaRecord>, fe: LabelRecord, restricted: bool)
    ensures
        has_best(records, fe, restricted) <==> exists|j: int|
            0 <= j < records.len() && takes_part(#[trigger] records[j], fe, restricted)
                && match_count(records[j].model, fe.model) > 0,
{
    lemma_best_exists(records, fe, restricted, records.len() as int);
    assert(records.take(records.len() as int) =~= records);
    if has_best(records, fe, restricted) {
        let i = choose|i: int| is_best_at(records, fe, restricted, i);
        assert(takes_part(records[i], fe, restricted) && match_count(records[i].model, fe.model)
            > 0);
    }
}

/// The first position below `n` at which `p` holds, where it holds at one.
proof fn lemma_first_position(p: spec_fn(int) -> bool, n: int) -> (k: int)
    requires
        exists|m: int| 0 <= m < n && #[trigger] p(m),
    ensures
        0 <= k < n,
        p(k),
        forall|j: int| 0 <= j < k ==> !#[trigger] p(j),
    decreases n,
{
    let m = choose|m: int| 0 <= m < n && #[trigger] p(m);
    if exists|e: int| 0 <= e < m && #[trigger] p(e) {
        lemma_first_position(p, m)
    } else {
        m
    }
}

/// Two lists of the same records, in whatever order, hold the same records.
proof fn lemma_same_members(a: Seq<EpaRecord>, b: Seq<EpaRecord>)
    requires
        a.to_multiset() == b.to_multiset(),
    ensures
        forall|r: EpaRecord| #[trigger] a.contains(r) <==> b.contains(r),
{
    a.to_multiset_ensures();
    b.to_multiset_ensures();
    assert forall|r: EpaRecord| #[trigger] a.contains(r) <==> b.contains(r) by {
        assert(a.contains(r) <==> a.to_multiset().count(r) > 0);
        assert(b.contains(r) <==> b.to_multiset().count(r) > 0);
    }
}

/// The best match does not depend on the order of the records, as long as
/// only one model name matches best: two lists of the same records, in
/// whatever order, then have best matches of the same model name, or both
/// have none.
pub proof fn lemma_best_model_any_order(
    a: Seq<EpaRecord>,
    b: Seq<EpaRecord>,
    fe: LabelRecord,
    restricted: bool,
)
    requires
        a.to_multiset() == b.to_multiset(),
        single_best_name(a, fe, restricted),
    ensures
        has_best(b, fe, restricted) == has_best(a, fe, restricted),
        best_model(b, fe, restricted) == best_model(a, fe, restricted),
        single_best_name(b, fe, restricted),
{
    lemma_same_members(a, b);
    lemma_has_best(a, fe, restricted);
    lemma_has_best(b, fe, restricted);
    if has_best(a, fe, restricted) {
        let i = choose|i: int| is_best_at(a, fe, restricted, i);
        let top = a[i].model;
        lemma_best_model_is(a, fe, restricted, i);
        assert(a.contains(a[i]));
        assert(b.contains(a[i]));
        let m = choose|m: int| 0 <= m < b.len() && b[m] == a[i];
        let p = |k: int| takes_part(b[k], fe, restricted) && b[k].model == top;
        assert(p(m));
        let k = lemma_first_position(p, b.len() as int);
        assert forall|j: int|
            0 <= j < b.len() && takes_part(#[trigger] b[j], fe, restricted) && b[j].model
                != top implies matches_better(top, b[j].model, fe.model) by {
            assert(b.contains(b[j]));
            assert(a.contains(b[j]));
            let e = choose|e: int| 0 <= e < a.len() && a[e] == b[j];
            assert(takes_part(a[e], fe, restricted));
        }
        assert forall|j: int|
            0 <= j < k && takes_part(#[trigger] b[j], fe, restricted) implies matches_better(
            b[k].model,
            b[j].model,
            fe.model,
        ) by {
            assert(!p(j));
        }
        assert forall|j: int|
            k < j < b.len() && takes_part(#[trigger] b[j], fe, restricted) implies !matches_better(
            b[j].model,
            b[k].model,
            fe.model,
        ) by {
            lemma_better_asymmetric(top, b[j].model, fe.model);
        }
        assert(is_best_at(b, fe, restricted, k));
        lemma_best_model_is(b, fe, restricted, k);
        assert forall|x: int, j: int|
            is_best_at(b, fe, restricted, x) && 0 <= j < b.len() && takes_part(
                #[trigger] b[j],
                fe,
                restricted,
            ) && b[j].model != (#[trigger] b[x]).model implies matches_better(
            b[x].model,
            b[j].model,
            fe.model,
        ) by {
            lemma_best_unique(b, fe, restricted, x, k);
        }
    } else {
        if has_best(b, fe, restricted) {
            let j = choose|j: int|
                0 <= j < b.len() && takes_part(#[trigger] b[j], fe, restricted) && match_count(
                    b[j].model,
                    fe.model,
                ) > 0;
            assert(b.contains(b[j]));
            assert(a.contains(b[j]));
            let e = choose|e: int| 0 <= e < a.len() && a[e] == b[j];
            assert(takes_part(a[e], fe, restricted));
        }
    }
}

/// The records of a list that pass a test are, as a collection, those of the
/// collection of the list that pass it.
proof fn lemma_filter_multiset(s: Seq<EpaRecord>, p: spec_fn(EpaRecord) -> bool)
    ensures
        s.filter(p).to_multiset() =~= s.to_multiset().filter(p),
    decreases s.len(),
{
    broadcast use vstd::multiset::group_multiset_axioms;

    if s.len() == 0 {
        reveal(Seq::filter);
        s.to_multiset_ensures();
        assert(s.filter(p) =~= Seq::<EpaRecord>::empty());
        Seq::<EpaRecord>::empty().to_multiset_ensures();
        assert(s =~= Seq::<EpaRecord>::empty());
    } else {
        let rest = s.drop_last();
        let x = s.last();
        lemma_filter_multiset(rest, p);
        assert(s =~= rest.push(x));
        rest.lemma_filter_push(x, p);
        rest.to_multiset_ensures();
        rest.filter(p).to_multiset_ensures();
    }
}

/// The group that the search settles on does not depend on the order of
/// the records, as long as only one model name matches best, overall and
/// among the records of the vehicle's certificate: two lists of the same
/// records, in whatever order, then give groups of the same records.
pub proof fn lemma_matched_group_any_order(a: Seq<EpaRecord>, b: Seq<EpaRecord>, fe: LabelRecord)
    requires
        a.to_multiset() == b.to_multiset(),
        single_best_name(a, fe, false),
        single_best_name(a, fe, true),
    ensures
        matched_group(b, fe).to_multiset() == matched_group(a, fe).to_multiset(),
{
    lemma_best_model_any_order(a, b, fe, false);
    lemma_best_model_any_order(a, b, fe, true);
    let pa = |r: EpaRecord| in_matched_group(a, fe, r);
    let pb = |r: EpaRecord| in_matched_group(b, fe, r);
    lemma_filter_multiset(a, pa);
    lemma_filter_multiset(b, pb);
    broadcast use vstd::multiset::group_multiset_axioms;

    assert forall|r: EpaRecord| #[trigger] pa(r) == pb(r) by {}
    assert(a.to_multiset().filter(pa) =~= b.to_multiset().filter(pb));
}

/// A list whose records all pass a test is what the test keeps of it.
proof fn lemma_filter_keeps_all(s: Seq<EpaRecord>, p: spec_fn(EpaRecord) -> bool)
    requires
        forall|i: int| 0 <= i < s.len() ==> p(#[trigger] s[i]),
    ensures
        s.filter(p) == s,
    decreases s.len(),
{
    reveal(Seq::filter);
    if s.len() > 0 {
        let rest = s.drop_last();
        assert forall|i: int| 0 <= i < rest.len() implies p(#[trigger] rest[i]) by {
            assert(rest[i] == s[i]);
        }
        lemma_filter_keeps_all(rest, p);
        assert(s.last() == s[s.len() - 1]);
        assert(rest.push(s.last()) =~= s);
    }
}

/// In a list of records of one model name that all take part, the first is
/// the best match as soon as some word of the name matches.
proof fn lemma_best_of_one_name(
    g: Seq<EpaRecord>,
    fe: LabelRecord,
    restricted: bool,
    name: Seq<char>,
)
    requires
        g.len() > 0,
        match_count(name, fe.model) > 0,
        forall|i: int|
            0 <= i < g.len() ==> (#[trigger] g[i]).model == name && takes_part(
                g[i],
                fe,
                restricted,
            ),
    ensures
        best_model(g, fe, restricted) == name,
{
    lemma_better_asymmetric(name, name, fe.model);
    assert(is_best_at(g, fe, restricted, 0));
    lemma_best_model_is(g, fe, restricted, 0);
}

/// Searching the group that a search settled on settles on the same group,
/// as long as only one model name matches best and that name is not empty.
pub proof fn lemma_matched_group_idempotent(a: Seq<EpaRecord>, fe: LabelRecord)
    requires
        single_best_name(a, fe, false),
        has_best(a, fe, false) ==> best_model(a, fe, false).len() > 0,
    ensures
        matched_group(matched_group(a, fe), fe) == matched_group(a, fe),
{
    broadcast use vstd::seq_lib::group_filter_ensures;

    let pa = |r: EpaRecord| in_matched_group(a, fe, r);
    let g = a.filter(pa);
    let pg = |r: EpaRecord| in_matched_group(g, fe, r);
    let overall = best_model(a, fe, false);
    let certified = best_model(a, fe, true);
    lemma_has_best(a, fe, false);
    lemma_has_best(a, fe, true);
    lemma_has_best(g, fe, false);
    lemma_has_best(g, fe, true);
    assert forall|i: int| 0 <= i < g.len() implies pa(#[trigger] g[i]) && a.contains(g[i]) by {
        a.lemma_filter_pred(pa, i);
        a.lemma_filter_contains_rev(pa, g[i]);
    }
    if has_best(a, fe, false) {
        let i = choose|i: int| is_best_at(a, fe, false, i);
        lemma_best_model_is(a, fe, false, i);
        if certified == overall {
            assert(has_best(a, fe, true));
            let c = choose|c: int| is_best_at(a, fe, true, c);
            lemma_best_model_is(a, fe, true, c);
            assert(pa(a[c]));
            a.lemma_filter_contains(pa, c);
            assert(g.len() > 0);
            lemma_best_of_one_name(g, fe, false, overall);
            lemma_best_of_one_name(g, fe, true, overall);
            assert forall|k: int| 0 <= k < g.len() implies pg(#[trigger] g[k]) by {}
        } else {
            assert(pa(a[i]));
            a.lemma_filter_contains(pa, i);
            assert(g.len() > 0);
            lemma_best_of_one_name(g, fe, false, overall);
            assert forall|k: int| 0 <= k < g.len() implies !in_certificate_group(
                #[trigger] g[k],
                fe,
            ) by {
                if in_certificate_group(g[k], fe) {
                    let e = choose|e: int| 0 <= e < a.len() && a[e] == g[k];
                    assert(takes_part(a[e], fe, true));
                    assert(has_best(a, fe, true));
                    let c = choose|c: int| is_best_at(a, fe, true, c);
                    lemma_best_model_is(a, fe, true, c);
                    assert(takes_part(a[c], fe, false));
                    assert(matches_better(overall, a[c].model, fe.model));
                    lemma_better_asymmetric(overall, a[c].model, fe.model);
                    if e < c {
                    } else if e > c {
                    }
                }
            }
            if has_best(g, fe, true) {
                let x = choose|x: int| is_best_at(g, fe, true, x);
                assert(takes_part(g[x], fe, true));
            }
            assert(best_model(g, fe, true).len() == 0);
            assert forall|k: int| 0 <= k < g.len() implies pg(#[trigger] g[k]) by {}
        }
    } else {
        assert(!has_best(a, fe, true)) by {
            if has_best(a, fe, true) {
                let c = choose|c: int| is_best_at(a, fe, true, c);
                assert(takes_part(a[c], fe, false));
            }
        }
        assert forall|k: int| 0 <= k < g.len() implies match_count(
            (#[trigger] g[k]).model,
            fe.model,
        ) == 0 by {
            let e = choose|e: int| 0 <= e < a.len() && a[e] == g[k];
            assert(takes_part(a[e], fe, false));
        }
        assert(!has_best(g, fe, false)) by {
            if has_best(g, fe, false) {
                let x = choose|x: int| is_best_at(g, fe, false, x);
            }
        }
        assert(!has_best(g, fe, true)) by {
            if has_best(g, fe, true) {
                let x = choose|x: int| is_best_at(g, fe, true, x);
            }
        }
        assert forall|k: int| 0 <= k < g.len() implies pg(#[trigger] g[k]) by {}
    }
    lemma_filter_keeps_all(g, pg);
}

/// Where all counted records are one and the same, that one is the winner,
/// in whatever order the records come.
pub proof fn lemma_plurality_of_one(hits: Seq<EpaRecord>, c: EpaRecord)
    requires
        hits.len() > 0,
        forall|i: int| 0 <= i < hits.len() ==> #[trigger] hits[i] == c,
    ensures
        plurality(hits) == c,
{
    lemma_tally_of_one(hits, c);
}

proof fn lemma_tally_of_one(hits: Seq<EpaRecord>, c: EpaRecord)
    requires
        hits.len() > 0,
        forall|i: int| 0 <= i < hits.len() ==> #[trigger] hits[i] == c,
    ensures
        tally_of(hits).current == c,
        tally_of(hits).current_count >= 1,
        tally_of(hits).best_count == 0,
    decreases hits.len(),
{
    let before = hits.drop_last();
    assert(hits.last() == hits[hits.len() - 1]);
    if before.len() > 0 {
        assert forall|i: int| 0 <= i < before.len() implies #[trigger] before[i] == c by {
            assert(before[i] == hits[i]);
        }
        lemma_tally_of_one(before, c);
    } else {
        assert(tally_of(before) == tally_start());
    }
}

/// Whether the hits from `a` up to `b` are a run: equal records that no
/// equal record precedes or follows.
pub open spec fn is_run(hits: Seq<EpaRecord>, a: int, b: int) -> bool {
    &&& 0 <= a < b <= hits.len()
    &&& forall|i: int| a <= i < b ==> #[trigger] hits[i] == hits[a]
    &&& (a == 0 || hits[a - 1] != hits[a])
    &&& (b == hits.len() || hits[b] != hits[a])
}

/// Whether the run from `a` up to `b` is the first of the longest runs.
pub open spec fn is_first_longest_run(hits: Seq<EpaRecord>, a: int, b: int) -> bool {
    &&& is_run(hits, a, b)
    &&& forall|c: int, d: int|
        #[trigger] is_run(hits, c, d) ==> d - c < b - a || (d - c == b - a && a <= c)
}

/// Where the run starts that the last of the hits ends.
pub open spec fn tail_start(hits: Seq<EpaRecord>) -> int
    decreases hits.len(),
{
    if hits.len() <= 1 {
        0
    } else if hits[hits.len() - 2] == hits[hits.len() - 1] {
        tail_start(hits.drop_last())
    } else {
        hits.len() - 1
    }
}

/// The last hits, from `tail_start` on, are a run.
proof fn lemma_tail_run(hits: Seq<EpaRecord>)
    requires
        hits.len() > 0,
    ensures
        is_run(hits, tail_start(hits), hits.len() as int),
    decreases hits.len(),
{
    if hits.len() > 1 && hits[hits.len() - 2] == hits[hits.len() - 1] {
        let before = hits.drop_last();
        lemma_tail_run(before);
        let a = tail_start(before);
        assert forall|i: int| a <= i < hits.len() implies #[trigger] hits[i] == hits[a] by {
            if i < before.len() {
                assert(before[i] == before[a]);
            } else {
                assert(before[before.len() - 1] == before[a]);
            }
        }
        if a > 0 {
            assert(before[a - 1] == hits[a - 1]);
            assert(before[a] == hits[a]);
        }
    }
}

/// The runs of the hits are the run that the last hit ends, and the runs of
/// the hits before that run.
proof fn lemma_runs(hits: Seq<EpaRecord>, c: int, d: int)
    requires
        hits.len() > 0,
    ensures
        is_run(hits, c, d) <==> (c == tail_start(hits) && d == hits.len()) || (d <= tail_start(
            hits,
        ) && is_run(hits.take(tail_start(hits)), c, d)),
{
    let a = tail_start(hits);
    let n = hits.len() as int;
    let head = hits.take(a);
    lemma_tail_run(hits);
    if is_run(hits, c, d) {
        if c >= a {
            if c > a {
                assert(hits[c - 1] == hits[a]);
                assert(hits[c] == hits[a]);
            }
            if d < n {
                assert(hits[d] == hits[a]);
            }
        } else {
            if d > a {
                assert(hits[a - 1] == hits[c]);
                assert(hits[a] == hits[c]);
            }
            assert forall|i: int| c <= i < d implies #[trigger] head[i] == head[c] by {
                assert(hits[i] == hits[c]);
            }
            assert(is_run(head, c, d));
        }
    }
    if d <= a && is_run(head, c, d) {
        assert forall|i: int| c <= i < d implies #[trigger] hits[i] == hits[c] by {
            assert(head[i] == head[c]);
        }
        if d == a {
            assert(head[a - 1] == head[c]);
            assert(hits[a - 1] == hits[c]);
        } else {
            assert(head[d] == hits[d]);
        }
        if c > 0 {
            assert(head[c - 1] == hits[c - 1]);
        }
        assert(is_run(hits, c, d));
    }
}

/// The count keeps, of the run at hand, its record and its length, and of
/// the runs before it, the record and the length of the first longest.
proof fn lemma_tally_runs(hits: Seq<EpaRecord>) -> (best: (int, int))
    requires
        hits.len() > 0,
    ensures
        tally_of(hits).current == hits.last(),
        tally_of(hits).current_count == hits.len() - tail_start(hits),
        tail_start(hits) == 0 ==> tally_of(hits).best_count == 0,
        tail_start(hits) > 0 ==> {
            &&& is_first_longest_run(hits.take(tail_start(hits)), best.0, best.1)
            &&& tally_of(hits).best == hits[best.0]
            &&& tally_of(hits).best_count == best.1 - best.0
        },
    decreases hits.len(),
{
    let n = hits.len() as int;
    let before = hits.drop_last();
    let r = hits.last();
    assert(r == hits[n - 1]);
    if n == 1 {
        assert(tally_of(before) == tally_start());
        (0, 0)
    } else {
        let found = lemma_tally_runs(before);
        let t = tally_of(before);
        let a = tail_start(before);
        assert(before.last() == hits[n - 2]);
        lemma_tail_run(before);
        if r == t.current {
            assert(tail_start(hits) == a);
            assert(hits.take(a) =~= before.take(a));
            if a > 0 {
                assert(before[found.0] == hits[found.0]);
            }
            found
        } else {
            assert(hits.take(n - 1) =~= before);
            if t.current_count > t.best_count {
                assert forall|c: int, d: int| #[trigger]
                    is_run(before, c, d) implies d - c < n - 1 - a || (d - c == n - 1 - a && a
                    <= c) by {
                    lemma_runs(before, c, d);
                }
                assert(before[a] == hits[a]);
                assert(before[a] == before[n - 2]);
                (a, n - 1)
            } else {
                assert(a > 0);
                assert forall|c: int, d: int| #[trigger]
                    is_run(before, c, d) implies d - c < found.1 - found.0 || (d - c == found.1
                    - found.0 && found.0 <= c) by {
                    lemma_runs(before, c, d);
                }
                lemma_runs(before, found.0, found.1);
                assert(before[found.0] == hits[found.0]);
                found
            }
        }
    }
}

/// The winner of a count is the record of the first of the longest runs of
/// equal records among the counted.
pub proof fn lemma_plurality_is_first_longest_run(hits: Seq<EpaRecord>)
    requires
        hits.len() > 0,
    ensures
        exists|a: int, b: int|
            #[trigger] is_first_longest_run(hits, a, b) && plurality(hits) == hits[a],
{
    let found = lemma_tally_runs(hits);
    let t = tally_of(hits);
    let a = tail_start(hits);
    let n = hits.len() as int;
    lemma_tail_run(hits);
    assert(hits[a] == hits[n - 1]);
    if t.current_count > t.best_count {
        assert forall|c: int, d: int| #[trigger] is_run(hits, c, d) implies d - c < n - a || (d
            - c == n - a && a <= c) by {
            lemma_runs(hits, c, d);
        }
        assert(is_first_longest_run(hits, a, n));
    } else {
        assert(a > 0);
        assert forall|c: int, d: int| #[trigger] is_run(hits, c, d) implies d - c < found.1
            - found.0 || (d - c == found.1 - found.0 && found.0 <= c) by {
            lemma_runs(hits, c, d);
        }
        lemma_runs(hits, found.0, found.1);
        assert(is_first_longest_run(hits, found.0, found.1));
    }
}

/// Whether equal records stand together among the hits.
pub open spec fn stands_together(hits: Seq<EpaRecord>) -> bool {
    forall|i: int, j: int, k: int|
        0 <= i < j < k < hits.len() && #[trigger] hits[i] == #[trigger] hits[k]
            ==> #[trigger] hits[j] == hits[i]
}

/// Hits that are all the record `x` hold it as often as they are many.
proof fn lemma_count_of_equal(s: Seq<EpaRecord>, x: EpaRecord)
    requires
        forall|i: int| 0 <= i < s.len() ==> #[trigger] s[i] == x,
    ensures
        s.to_multiset().count(x) == s.len(),
    decreases s.len(),
{
    broadcast use vstd::multiset::group_multiset_axioms;

    s.to_multiset_ensures();
    if s.len() > 0 {
        let rest = s.drop_last();
        assert forall|i: int| 0 <= i < rest.len() implies #[trigger] rest[i] == x by {
            assert(rest[i] == s[i]);
        }
        lemma_count_of_equal(rest, x);
        rest.to_multiset_ensures();
        assert(s =~= rest.push(s.last()));
        assert(s.last() == s[s.len() - 1]);
    } else {
        assert(s.to_multiset().len() == 0);
    }
}

/// Where equal records stand together, a run is as long as its record is
/// frequent among the hits.
proof fn lemma_run_length(hits: Seq<EpaRecord>, c: int, d: int)
    requires
        stands_together(hits),
        is_run(hits, c, d),
    ensures
        hits.to_multiset().count(hits[c]) == d - c,
{
    broadcast use vstd::multiset::group_multiset_axioms;

    let x = hits[c];
    let head = hits.take(c);
    let run = hits.subrange(c, d);
    let tail = hits.skip(d);
    assert(hits =~= head + run + tail);
    vstd::seq_lib::lemma_multiset_commutative(head + run, tail);
    vstd::seq_lib::lemma_multiset_commutative(head, run);
    head.to_multiset_ensures();
    tail.to_multiset_ensures();
    assert(!head.contains(x)) by {
        if head.contains(x) {
            let i = choose|i: int| 0 <= i < head.len() && head[i] == x;
            assert(hits[i] == hits[c]);
            if i < c - 1 {
                assert(hits[c - 1] == hits[i]);
            }
        }
    }
    assert(!tail.contains(x)) by {
        if tail.contains(x) {
            let i = choose|i: int| 0 <= i < tail.len() && tail[i] == x;
            assert(hits[d + i] == hits[c]);
            if i > 0 {
                assert(hits[d] == hits[c]);
            }
        }
    }
    assert forall|i: int| 0 <= i < run.len() implies #[trigger] run[i] == x by {
        assert(hits[c + i] == hits[c]);
    }
    lemma_count_of_equal(run, x);
}

/// Where equal records stand together and one record is more frequent than
/// every other, that record is the winner: two lists of the same hits, in
/// whatever order that keeps equal records together, have the same winner.
pub proof fn lemma_plurality_any_order(a: Seq<EpaRecord>, b: Seq<EpaRecord>, w: EpaRecord)
    requires
        a.to_multiset() == b.to_multiset(),
        stands_together(a),
        stands_together(b),
        a.contains(w),
        forall|x: EpaRecord|
            x != w ==> #[trigger] a.to_multiset().count(x) < a.to_multiset().count(w),
    ensures
        plurality(a) == w,
        plurality(b) == w,
{
    lemma_same_members(a, b);
    assert(b.contains(w));
    lemma_most_frequent_wins(a, w);
    lemma_most_frequent_wins(b, w);
}

proof fn lemma_most_frequent_wins(hits: Seq<EpaRecord>, w: EpaRecord)
    requires
        stands_together(hits),
        hits.contains(w),
        forall|x: EpaRecord|
            x != w ==> #[trigger] hits.to_multiset().count(x) < hits.to_multiset().count(w),
    ensures
        plurality(hits) == w,
{
    lemma_plurality_is_first_longest_run(hits);
    let (a, b) = choose|a: int, b: int|
        #[trigger] is_first_longest_run(hits, a, b) && plurality(hits) == hits[a];
    lemma_run_length(hits, a, b);
    if hits[a] != w {
        let i = choose|i: int| 0 <= i < hits.len() && hits[i] == w;
        let (c, d) = lemma_run_around(hits, i);
        lemma_run_length(hits, c, d);
        assert(is_run(hits, c, d));
    }
}

/// Each hit stands in a run.
proof fn lemma_run_around(hits: Seq<EpaRecord>, i: int) -> (run: (int, int))
    requires
        0 <= i < hits.len(),
    ensures
        is_run(hits, run.0, run.1),
        run.0 <= i < run.1,
        hits[run.0] == hits[i],
    decreases hits.len(),
{
    let a = tail_start(hits);
    lemma_tail_run(hits);
    if i >= a {
        (a, hits.len() as int)
    } else {
        let head = hits.take(a);
        let found = lemma_run_around(head, i);
        lemma_runs(hits, found.0, found.1);
        assert(head[found.0] == hits[found.0]);
        assert(head[i] == hits[i]);
        found
    }
}

} // verus!
