use conmon::container_logging::{ContainerFields, ContainerLogging, Driver, Keyword, LogError, keyword};

#[test]
fn parse_log_path() {
    struct Tc {
        input: &'static str,
        should_error: bool,
        expected: Option<Driver>,
    }
    let test_cases = vec![
        Tc {
            input: "/some/path",
            should_error: false,
            expected: Some(Driver::K8sFile("/some/path".to_string())),
        },
        Tc {
            input: "k8s-file:/some/path",
            should_error: false,
            expected: Some(Driver::K8sFile("/some/path".to_string())),
        },
        Tc {
            input: "journald:/some/path",
            should_error: false,
            expected: Some(Driver::Journald(ContainerFields::default())),
        },
        Tc {
            input: "journald",
            should_error: false,
            expected: Some(Driver::Journald(ContainerFields::default())),
        },
        Tc {
            input: "journald:",
            should_error: false,
            expected: Some(Driver::Journald(ContainerFields::default())),
        },
        Tc {
            input: ":/some/path",
            should_error: true,
            expected: None,
        },
        Tc {
            input: "wrong:/some/path",
            should_error: true,
            expected: None,
        },
        Tc {
            input: "none",
            should_error: false,
            expected: Some(Driver::NoLogging),
        },
        Tc {
            input: "off",
            should_error: false,
            expected: Some(Driver::Off),
        },
        Tc {
            input: "null",
            should_error: false,
            expected: Some(Driver::Null),
        },
    ];
    for tc in test_cases {
        let res = ContainerLogging::parse_log_path(tc.input);
        if tc.should_error {
            assert!(res.is_err())
        } else {
            let expected = tc.expected.expect("no driver provided");
            assert_eq!(res.unwrap(), expected)
        }
    }
}

#[test]
fn parse_errors_are_distinguished() {
    assert_eq!(ContainerLogging::parse_log_path("wrong:/some/path"), Err(LogError::UnknownDriver));
    assert_eq!(ContainerLogging::parse_log_path(":/some/path"), Err(LogError::UnknownDriver));
    assert_eq!(ContainerLogging::parse_log_path(":"), Err(LogError::UnknownDriver));
    assert_eq!(ContainerLogging::parse_log_path("k8s-file:"), Err(LogError::EmptyPath));
}

#[test]
fn path_is_split_on_first_colon_only() {
    assert_eq!(
        ContainerLogging::parse_log_path("k8s-file:/a:b"),
        Ok(Driver::K8sFile("/a:b".to_string()))
    );
    assert_eq!(
        ContainerLogging::parse_log_path("off:/whatever:x"),
        Ok(Driver::Off)
    );
}

#[test]
fn plain_strings_are_file_paths() {
    for s in ["relative/log", "Journald", "k8s-file-x", "", "ünïcode"] {
        assert_eq!(ContainerLogging::parse_log_path(s), Ok(Driver::K8sFile(s.to_string())));
    }
}

#[test]
fn bare_file_keyword_has_empty_path() {
    assert_eq!(ContainerLogging::parse_log_path("k8s-file"), Ok(Driver::K8sFile(String::new())));
}

#[test]
fn keywords_are_recognized() {
    assert_eq!(keyword("k8s-file"), Some(Keyword::K8sFile));
    assert_eq!(keyword("journald"), Some(Keyword::Journald));
    assert_eq!(keyword("none"), Some(Keyword::NoLogging));
    assert_eq!(keyword("NONE"), None);
    assert_eq!(keyword(""), None);
}

#[test]
fn truncate_cuts_to_characters() {
    assert_eq!(ContainerLogging::truncate("0123456789abcdefghij", 12), "0123456789ab");
    assert_eq!(ContainerLogging::truncate("short", 12), "short");
    assert_eq!(ContainerLogging::truncate("äöüß", 2), "äö");
    assert_eq!(ContainerLogging::truncate("", 0), "");
}

#[test]
fn journal_fields_from_long_id() {
    let paths = vec!["journald".to_string()];
    let logging = ContainerLogging::new(&paths, Some("0123456789abcdefghij"), Some("web"), Some("t1")).unwrap();
    let drivers = logging.drivers();
    assert_eq!(drivers.len(), 1);
    match &drivers[0] {
        Driver::Journald(f) => {
            assert_eq!(f.id(), "CONTAINER_ID=0123456789ab");
            assert_eq!(f.id_full(), "CONTAINER_ID_FULL=0123456789abcdefghij");
            assert_eq!(f.tag(), &Some("CONTAINER_TAG=t1".to_string()));
            assert_eq!(f.name(), &Some("CONTAINER_NAME=web".to_string()));
        }
        other => panic!("unexpected driver {:?}", other),
    }
}

#[test]
fn journal_fields_absent_values_not_emitted() {
    let paths = vec!["journald:/ignored".to_string()];
    let logging = ContainerLogging::new(&paths, Some("0123456789ab"), None, None).unwrap();
    match &logging.drivers()[0] {
        Driver::Journald(f) => {
            assert_eq!(f.id(), "CONTAINER_ID=0123456789ab");
            assert_eq!(f.id_full(), "CONTAINER_ID_FULL=0123456789ab");
            assert_eq!(f.tag(), &None);
            assert_eq!(f.name(), &None);
        }
        other => panic!("unexpected driver {:?}", other),
    }
}

#[test]
fn journal_needs_long_enough_id() {
    let paths = vec!["journald".to_string()];
    assert_eq!(ContainerLogging::new(&paths, Some("0123456789a"), None, None).err(), Some(LogError::IdTooShort));
    assert_eq!(ContainerLogging::new(&paths, None, None, None).err(), Some(LogError::MissingId));
}

#[test]
fn disabled_drivers_are_filtered_without_id() {
    let paths = vec!["none".to_string(), "off".to_string(), "null".to_string()];
    let logging = ContainerLogging::new(&paths, None, None, None).unwrap();
    assert!(logging.drivers().is_empty());
}

#[test]
fn drivers_keep_input_order_without_dedup() {
    let paths = vec![
        "/a".to_string(),
        "off".to_string(),
        "k8s-file:/b".to_string(),
        "/a".to_string(),
    ];
    let logging = ContainerLogging::new(&paths, None, None, Some("tag")).unwrap();
    assert_eq!(
        logging.drivers(),
        &vec![
            Driver::K8sFile("/a".to_string()),
            Driver::K8sFile("/b".to_string()),
            Driver::K8sFile("/a".to_string()),
        ]
    );
}

#[test]
fn one_bad_destination_fails_all() {
    let paths = vec!["/a".to_string(), "wrong:/x".to_string(), "journald".to_string()];
    assert_eq!(ContainerLogging::new(&paths, None, None, None).err(), Some(LogError::UnknownDriver));
    let paths = vec!["/a".to_string(), "journald".to_string(), "k8s-file:".to_string()];
    assert_eq!(ContainerLogging::new(&paths, None, None, None).err(), Some(LogError::MissingId));
}
