//! Where the yearly data lies: the archives that are published, and the
//! files that an archive holds.

use vstd::prelude::*;
use crate::text::{chars_of, ends_with, ends_with_text, number_text, push_number, push_text, text_of};

verus! {

/// The files of a year of data.
#[derive(Clone, Copy, Debug, PartialEq, Eq, Structural)]
pub enum DataFile {
    /// The vehicles of the label data set.
    Vehicles,
    /// The certificates of the label data set.
    Emissions,
    /// The test data set.
    TestCars,
    /// The archive that holds the three.
    Archive,
}

/// What to fetch for a year of data that is not all there.
#[derive(Debug, PartialEq, Eq)]
pub struct CacheFetch {
    /// The address of the archive of the year
    pub url: String,
    /// The name under which to keep the archive
    pub archive: String,
    /// The names of the files to take out of the archive, in this order:
    /// certificates, vehicles, test data
    pub members: Vec<String>,
}

/// The address under which the yearly data archives are published.
pub open spec fn default_cache_url_text() -> Seq<char> {
    "https://github.com/NREL/temp-data/raw/main/"@
}

/// What stands behind the year in the name of a file.
pub open spec fn file_suffix(file: DataFile) -> Seq<char> {
    match file {
        DataFile::Vehicles => "-vehicles.csv"@,
        DataFile::Emissions => "-emissions.csv"@,
        DataFile::TestCars => "-testcar.csv"@,
        DataFile::Archive => ".zip"@,
    }
}

/// The name of a file of a year of data: the year, then what tells the file.
pub open spec fn data_file_text(year: u32, file: DataFile) -> Seq<char> {
    number_text(year as nat) + file_suffix(file)
}

/// The address of the archive of a year below `base`: `base`, a slash where
/// `base` does not end in one, the year, and `.zip`.
pub open spec fn year_archive_url(base: Seq<char>, year: u32) -> Seq<char> {
    base + (if ends_with_text(base, seq!['/']) {
        Seq::<char>::empty()
    } else {
        seq!['/']
    }) + data_file_text(year, DataFile::Archive)
}

/// The name of the table of tested vehicles of a model year as the resource
/// directory holds it: the last two digits of the year as a number, then
/// `-tstcar.csv`.
pub open spec fn test_table_text(year: u32) -> Seq<char> {
    number_text((year % 100) as nat) + "-tstcar.csv"@
}

/// Returns the address under which the yearly data archives are published.
pub fn get_default_cache_url() -> (url: String)
    ensures
        url@ == default_cache_url_text(),
{
    "https://github.com/NREL/temp-data/raw/main/".to_owned()
}

/// The name of a file of a year of data.
pub fn data_file_name(year: u32, file: DataFile) -> (name: String)
    ensures
        name@ == data_file_text(year, file),
{
    let mut out: Vec<char> = Vec::new();
    push_number(&mut out, year as u64);
    push_text(
        &mut out,
        match file {
            DataFile::Vehicles => "-vehicles.csv",
            DataFile::Emissions => "-emissions.csv",
            DataFile::TestCars => "-testcar.csv",
            DataFile::Archive => ".zip",
        },
    );
    assert(out@ =~= data_file_text(year, file));
    text_of(&out)
}

/// The name of the table of tested vehicles of a model year as the resource
/// directory holds it.
pub fn test_table_name(year: u32) -> (name: String)
    ensures
        name@ == test_table_text(year),
{
    let mut out: Vec<char> = Vec::new();
    push_number(&mut out, (year % 100) as u64);
    push_text(&mut out, "-tstcar.csv");
    assert(out@ =~= test_table_text(year));
    text_of(&out)
}

/// The address of the archive of a year below `cache_url`.
pub fn get_cache_url_for_year(cache_url: &str, year: u32) -> (r: Option<String>)
    ensures
        r matches Some(url) && url@ == year_archive_url(cache_url@, year),
{
    let mut out = chars_of(cache_url);
    let mut slash: Vec<char> = Vec::new();
    slash.push('/');
    assert(slash@ =~= seq!['/']);
    if !ends_with(&out, &slash) {
        out.push('/');
    }
    push_text(&mut out, data_file_name(year, DataFile::Archive).as_str());
    assert(out@ =~= year_archive_url(cache_url@, year));
    Some(text_of(&out))
}

/// What to fetch for a year of data, given which of its three files are
/// there: nothing where all are, and else the archive of the year below
/// `cache_url` with the three files to take out of it.
pub fn plan_cache_fetch(
    year: u32,
    veh_file_exists: bool,
    emissions_file_exists: bool,
    epa_file_exists: bool,
    cache_url: &str,
) -> (r: Option<CacheFetch>)
    ensures
        r is None <==> veh_file_exists && emissions_file_exists && epa_file_exists,
        r matches Some(fetch) ==> {
            &&& fetch.url@ == year_archive_url(cache_url@, year)
            &&& fetch.archive@ == data_file_text(year, DataFile::Archive)
            &&& fetch.members@.len() == 3
            &&& fetch.members@[0]@ == data_file_text(year, DataFile::Emissions)
            &&& fetch.members@[1]@ == data_file_text(year, DataFile::Vehicles)
            &&& fetch.members@[2]@ == data_file_text(year, DataFile::TestCars)
        },
{
    if veh_file_exists && emissions_file_exists && epa_file_exists {
        return None;
    }
    match get_cache_url_for_year(cache_url, year) {
        Some(url) => {
            let mut members: Vec<String> = Vec::new();
            members.push(data_file_name(year, DataFile::Emissions));
            members.push(data_file_name(year, DataFile::Vehicles));
            members.push(data_file_name(year, DataFile::TestCars));
            Some(CacheFetch { url, archive: data_file_name(year, DataFile::Archive), members })
        },
        None => None,
    }
}

} // verus!
