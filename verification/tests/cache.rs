use fastsim_vehicle::cache::{
    data_file_name, get_cache_url_for_year, get_default_cache_url, plan_cache_fetch,
    test_table_name, CacheFetch, DataFile,
};
use fastsim_vehicle::files::{
    default_vehicle_file, file_format, file_name, numbered_file_name, stem_and_extension,
    FileFormat,
};

fn c(s: &str) -> Vec<char> {
    s.chars().collect()
}

#[test]
fn default_cache_url() {
    assert_eq!(get_default_cache_url(), "https://github.com/NREL/temp-data/raw/main/");
}

#[test]
fn cache_url_for_a_year() {
    assert_eq!(
        get_cache_url_for_year("https://github.com/NREL/temp-data/raw/main/", 2022),
        Some(String::from("https://github.com/NREL/temp-data/raw/main/2022.zip"))
    );
    assert_eq!(
        get_cache_url_for_year("https://example.org/data", 1998),
        Some(String::from("https://example.org/data/1998.zip"))
    );
    assert_eq!(get_cache_url_for_year("", 0), Some(String::from("/0.zip")));
}

#[test]
fn names_of_the_files_of_a_year() {
    assert_eq!(data_file_name(2022, DataFile::Vehicles), "2022-vehicles.csv");
    assert_eq!(data_file_name(2022, DataFile::Emissions), "2022-emissions.csv");
    assert_eq!(data_file_name(2022, DataFile::TestCars), "2022-testcar.csv");
    assert_eq!(data_file_name(2022, DataFile::Archive), "2022.zip");
    assert_eq!(test_table_name(2022), "22-tstcar.csv");
    assert_eq!(test_table_name(2005), "5-tstcar.csv");
    assert_eq!(test_table_name(2000), "0-tstcar.csv");
}

#[test]
fn nothing_is_fetched_where_all_is_there() {
    assert_eq!(plan_cache_fetch(2022, true, true, true, "https://example.org/"), None);
}

#[test]
fn archive_is_fetched_where_a_file_is_missing() {
    let expected = CacheFetch {
        url: String::from("https://example.org/2022.zip"),
        archive: String::from("2022.zip"),
        members: vec![
            String::from("2022-emissions.csv"),
            String::from("2022-vehicles.csv"),
            String::from("2022-testcar.csv"),
        ],
    };
    for (veh, emissions, epa) in [
        (false, true, true),
        (true, false, true),
        (true, true, false),
        (false, false, false),
    ] {
        assert_eq!(
            plan_cache_fetch(2022, veh, emissions, epa, "https://example.org/"),
            Some(CacheFetch {
                url: expected.url.clone(),
                archive: expected.archive.clone(),
                members: expected.members.clone()
            })
        );
    }
}

#[test]
fn format_by_extension() {
    assert_eq!(file_format("vehicle.yaml"), Some(FileFormat::Yaml));
    assert_eq!(file_format("out/2020-toyota-camry.json"), Some(FileFormat::Json));
    assert_eq!(file_format("vehicle.YAML"), None);
    assert_eq!(file_format("vehicle.yml"), None);
    assert_eq!(file_format("vehicle"), None);
    assert_eq!(file_format(".yaml"), None);
    assert_eq!(file_format("a.yaml/vehicle"), None);
    assert_eq!(file_format("archive.tar.json"), Some(FileFormat::Json));
    assert_eq!(file_format(""), None);
}

#[test]
fn stem_and_extension_of_a_path() {
    assert_eq!(file_name("out/2020-toyota-camry.yaml"), c("2020-toyota-camry.yaml"));
    assert_eq!(file_name("camry.yaml"), c("camry.yaml"));
    assert_eq!(file_name("out/"), c(""));
    assert_eq!(stem_and_extension("out/camry.yaml"), (c("camry"), Some(c("yaml"))));
    assert_eq!(stem_and_extension("a.b.c"), (c("a.b"), Some(c("c"))));
    assert_eq!(stem_and_extension("camry."), (c("camry"), Some(c(""))));
    assert_eq!(stem_and_extension(".hidden"), (c(".hidden"), None));
    assert_eq!(stem_and_extension("camry"), (c("camry"), None));
    // A path is read as it is written.
    assert_eq!(stem_and_extension("out/camry.yaml/"), (c(""), None));
    assert_eq!(stem_and_extension("out/.."), (c("."), Some(c(""))));
}

#[test]
fn numbered_file_names() {
    assert_eq!(
        numbered_file_name("2020-toyota-camry.yaml", 0),
        Some(String::from("2020-toyota-camry.yaml"))
    );
    assert_eq!(
        numbered_file_name("2020-toyota-camry.yaml", 1),
        Some(String::from("2020-toyota-camry-1.yaml"))
    );
    assert_eq!(
        numbered_file_name("out/2020-toyota-camry.yaml", 12),
        Some(String::from("2020-toyota-camry-12.yaml"))
    );
    assert_eq!(numbered_file_name("camry", 0), Some(String::from("camry")));
    assert_eq!(numbered_file_name("camry", 1), None);
}

#[test]
fn default_file_of_a_vehicle() {
    assert_eq!(
        default_vehicle_file("2022 Toyota Prius Prime"),
        "../../python/fastsim/resources/vehdb/2022_Toyota_Prius_Prime.yaml"
    );
    assert_eq!(default_vehicle_file(""), "../../python/fastsim/resources/vehdb/.yaml");
}
