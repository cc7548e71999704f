use app_libs::utils::env::Vars;
use app_libs::utils::maxminddb::archive::{database_in_archive, is_mmdb_path};
use app_libs::utils::maxminddb::client::TimezoneSource;
use app_libs::utils::maxminddb::error::MaxmindDbError;
use app_libs::utils::maxminddb::{get_client_ip_header, get_header_value, MaxMindDB, Tz};
use http::{HeaderMap, HeaderValue};

fn headers(pairs: &[(&'static str, &[u8])]) -> HeaderMap {
    let mut h = HeaderMap::new();
    for (name, value) in pairs {
        h.append(*name, HeaderValue::from_bytes(value).unwrap());
    }
    h
}

#[test]
fn first_item_of_forwarded_for() {
    let h = headers(&[("x-forwarded-for", b" 203.0.113.7 , 10.0.0.1")]);
    assert_eq!(get_header_value(&h, "x-forwarded-for"), Some("203.0.113.7".to_string()));
}

#[test]
fn header_names_are_tried_in_order() {
    let h = headers(&[("x-real-ip", b"198.51.100.2"), ("cf-connecting-ip", b"192.0.2.9")]);
    assert_eq!(
        get_header_value(&h, "cf-connecting-ip,x-real-ip"),
        Some("192.0.2.9".to_string())
    );
    assert_eq!(get_header_value(&h, "missing,x-real-ip"), Some("198.51.100.2".to_string()));
    assert_eq!(get_header_value(&h, "missing,other"), None);
}

#[test]
fn header_names_ignore_case() {
    let h = headers(&[("x-forwarded-for", b"203.0.113.7")]);
    assert_eq!(get_header_value(&h, "X-Forwarded-For"), Some("203.0.113.7".to_string()));
}

#[test]
fn unreadable_value_is_skipped() {
    let h = headers(&[("a", b"caf\xc3\xa9"), ("b", b"ok")]);
    assert_eq!(get_header_value(&h, "a,b"), Some("ok".to_string()));
}

#[test]
fn name_with_space_is_not_found() {
    let h = headers(&[("b", b"ok")]);
    assert_eq!(get_header_value(&h, "a, b"), None);
}

#[test]
fn first_value_of_repeated_header() {
    let h = headers(&[("x-forwarded-for", b"1.1.1.1"), ("x-forwarded-for", b"2.2.2.2")]);
    assert_eq!(get_header_value(&h, "x-forwarded-for"), Some("1.1.1.1".to_string()));
}

#[test]
fn client_ip_header_defaults() {
    assert_eq!(get_client_ip_header(&Vars::new()), "x-forwarded-for");
    let mut vars = Vars::new();
    vars.set("CLIENT_IP_HEADER".to_string(), "cf-connecting-ip".to_string());
    assert_eq!(get_client_ip_header(&vars), "cf-connecting-ip");
}

#[test]
fn time_zones_are_looked_up_by_name() {
    assert_eq!(Tz::parse("Europe/Paris").unwrap().name(), "Europe/Paris");
    assert!(Tz::parse("Mars/Olympus").is_none());
    assert_eq!(Tz::utc().name(), "UTC");
}

#[test]
fn timezone_from_header_or_default() {
    let mut vars = Vars::new();
    vars.set("CLIENT_TIMEZONE_HEADER".to_string(), "x-timezone".to_string());
    let db = MaxMindDB::init(&vars).with_default_timezone("Asia/Tokyo").unwrap();
    assert_eq!(db.default_timezone().name(), "Asia/Tokyo");

    let h = headers(&[("x-timezone", b"America/New_York")]);
    let found = db.header_timezone(&h);
    assert_eq!(found.as_deref(), Some("America/New_York"));
    let (tz, fallback) = db.choose_timezone(found);
    assert_eq!(tz.name(), "America/New_York");
    assert!(!fallback);

    let (tz, fallback) = db.choose_timezone(Some("Nowhere/Else".to_string()));
    assert_eq!(tz.name(), "Asia/Tokyo");
    assert!(!fallback);

    let (tz, fallback) = db.choose_timezone(None);
    assert_eq!(tz.name(), "Asia/Tokyo");
    assert!(fallback);
}

#[test]
fn no_timezone_header_configured() {
    let db = MaxMindDB::init(&Vars::new());
    let h = headers(&[("x-timezone", b"America/New_York")]);
    assert_eq!(db.header_timezone(&h), None);
    assert_eq!(db.default_timezone().name(), "UTC");
    let h = headers(&[("x-forwarded-for", b"203.0.113.7, 10.0.0.1")]);
    assert_eq!(db.client_ip_text(&h), Some("203.0.113.7".to_string()));
}

#[test]
fn unknown_default_timezone_is_refused() {
    let r = MaxMindDB::init(&Vars::new()).with_default_timezone("Mars/Olympus");
    assert!(matches!(r, Err(MaxmindDbError::ParseError)));
}

#[test]
fn database_files_are_recognized() {
    assert!(is_mmdb_path("GeoLite2-City_20240101/GeoLite2-City.mmdb"));
    assert!(is_mmdb_path("GeoLite2-City.MMDB"));
    assert!(is_mmdb_path("dir/file.mmdb/"));
    assert!(is_mmdb_path("dir/file.mmdb/."));
    assert!(!is_mmdb_path("GeoLite2-City_20240101/LICENSE.txt"));
    assert!(!is_mmdb_path("GeoLite2-City_20240101/"));
    assert!(!is_mmdb_path(".mmdb"));
    assert!(!is_mmdb_path("dir/.."));
    assert!(!is_mmdb_path("file.mmdbx"));
    assert!(is_mmdb_path("..mmdb"));
}

#[test]
fn path_extension_agrees_with_std() {
    for p in [
        "a.mmdb", "a/b.mmdb", ".mmdb", "a/.mmdb", "a.MmDb", "a/", "a/b/..", "a.mmdb/.", "x.tar.mmdb",
        "mmdb", "/", ".", "", "a..mmdb", "a/.mmdb.mmdb",
    ] {
        let expected = std::path::Path::new(p)
            .extension()
            .is_some_and(|ext| ext.eq_ignore_ascii_case("mmdb"));
        assert_eq!(is_mmdb_path(p), expected, "{p}");
    }
}

#[test]
fn timezone_source_prefers_the_timezone_header() {
    let mut vars = Vars::new();
    vars.set("CLIENT_TIMEZONE_HEADER".to_string(), "x-timezone".to_string());
    vars.set("CLIENT_IP_HEADER".to_string(), "x-real-ip".to_string());
    let db = MaxMindDB::init(&vars);

    let h = headers(&[("x-timezone", b" Europe/Paris "), ("x-real-ip", b"198.51.100.4")]);
    assert!(matches!(
        db.timezone_source(&h),
        TimezoneSource::Header(tz) if tz == "Europe/Paris"
    ));

    let h = headers(&[("x-real-ip", b"198.51.100.4")]);
    assert!(matches!(
        db.timezone_source(&h),
        TimezoneSource::ClientIp(ip) if ip == "198.51.100.4"
    ));

    let h = headers(&[("x-forwarded-for", b"198.51.100.4")]);
    assert!(matches!(db.timezone_source(&h), TimezoneSource::Unknown));
}

#[test]
fn long_header_names_are_found_ignoring_case() {
    let stored: &'static str = "x-a-very-long-header-name-that-goes-on-and-on-well-past-sixty-four-bytes";
    assert!(stored.len() > 64);
    let h = headers(&[(stored, b" 192.0.2.9 , 10.0.0.1")]);
    let asked = stored.to_ascii_uppercase();
    assert_eq!(get_header_value(&h, &asked), Some("192.0.2.9".to_string()));
    let missing = format!("{asked}-x");
    assert_eq!(get_header_value(&h, &missing), None);
    let invalid = asked.replace('-', " ");
    assert_eq!(get_header_value(&h, &invalid), None);
}

fn targz(entries: &[(&str, &[u8])]) -> Vec<u8> {
    let mut builder = tar::Builder::new(flate2::write::GzEncoder::new(
        Vec::new(),
        flate2::Compression::default(),
    ));
    for (path, contents) in entries {
        let mut header = tar::Header::new_gnu();
        header.set_size(contents.len() as u64);
        header.set_mode(0o644);
        header.set_cksum();
        builder.append_data(&mut header, path, *contents).unwrap();
    }
    builder.into_inner().unwrap().finish().unwrap()
}

#[test]
fn database_is_the_last_mmdb_entry_of_the_archive() {
    let archive = targz(&[
        ("GeoLite2-City_1/README.txt", b"readme"),
        ("GeoLite2-City_1/GeoLite2-City.MMDB", b"first"),
        ("GeoLite2-City_1/COPYRIGHT.txt", b"c"),
        ("GeoLite2-City_1/other.mmdb", b"second"),
    ]);
    assert_eq!(database_in_archive(&archive).unwrap(), Some(b"second".to_vec()));

    let archive = targz(&[("a/README.txt", b"readme"), ("a/.mmdb", b"hidden")]);
    assert_eq!(database_in_archive(&archive).unwrap(), None);

    assert!(matches!(
        database_in_archive(b"not an archive"),
        Err(MaxmindDbError::Io(_))
    ));
}
