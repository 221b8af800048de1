use mmfplace::config::Config;

#[test]
fn test_config() {
    let config = Config::new();
    println!("config: {:#?}", config);
    assert_eq!(config.batch, Some(10));
    assert!(!config.dateparse.list.is_empty());
    assert!(!config.dateregex.list.is_empty());
    assert!(config.dateregex.ignore.is_some());
    assert!(!config.typeregex.list.is_empty());
    assert!(config.typeregex.ignore.is_some());
}

#[test]
fn capture_with_explicit_index() {
    let config = Config::new();
    let capture = &config.typeregex.list[0];
    let got = capture.capture("> [File Type] Expected File Name Extension = png ");
    assert_eq!(got, Some("png".to_string()));
    let missing = capture.capture("no extension information here");
    assert_eq!(missing, None);
}
