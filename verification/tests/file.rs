use dotfiles::file::Asset;

fn test_assets() -> Asset {
    let mut assets = Asset::new();
    assert!(assets.insert("test_config.toml", b"version = 2\napi_key = 'test'\n"));
    assert!(assets.insert("test_binary", &[0x7f, 0x45, 0x4c, 0x46, 0x00, 0xff]));
    assert!(assets.insert("config.toml", b"version = 1\napi_key = 'config'\n"));
    assert!(assets.insert("test.toml", b""));
    assert!(assets.insert("test.sh", b"#!/bin/bash\n\necho \"this is a test shell script\""));
    assert!(assets.insert("stored_config.toml", b"version = 1\napi_key = 'config'\n"));
    assets
}

#[test]
fn read_file() {
    let assets = test_assets();
    let test_sh = assets.get("test.sh").unwrap();
    let content = std::str::from_utf8(test_sh.as_ref())
        .expect("could not read file");

    assert_eq!(content, "#!/bin/bash\n\necho \"this is a test shell script\"");

    for file in assets.iter() {
        println!("{}", file);
    }
}

#[test]
fn read_dir() {
    let assets = test_assets();
    let mut dir = vec![];
    for file in assets.iter() {
        dir.push(file);
    }

    assert_eq!(dir, vec![
        "test_config.toml",
        "test_binary",
        "config.toml",
        "test.toml",
        "test.sh",
        "stored_config.toml"
    ]);
}

#[test]
fn absent_name_is_not_found() {
    let assets = test_assets();
    assert!(assets.get("does-not-exist.sh").is_none());
    assert!(assets.get("").is_none());
    assert!(assets.get("test").is_none());
    assert!(Asset::new().get("test.sh").is_none());
}

#[test]
fn empty_catalog_lists_nothing() {
    assert!(Asset::new().iter().is_empty());
}

#[test]
fn repeated_lookups_agree() {
    let assets = test_assets();
    let first = assets.get("test_binary").unwrap().to_vec();
    let second = assets.get("test_binary").unwrap().to_vec();
    assert_eq!(first, vec![0x7f, 0x45, 0x4c, 0x46, 0x00, 0xff]);
    assert_eq!(first, second);
    assert_eq!(assets.iter(), assets.iter());
}

#[test]
fn a_name_is_bundled_once() {
    let mut assets = Asset::new();
    assert!(assets.insert("a", b"first"));
    assert!(assets.insert("b", b"other"));
    assert!(!assets.insert("a", b"second"));
    assert_eq!(assets.get("a").unwrap(), b"first");
    assert_eq!(assets.iter(), vec!["a", "b"]);
}

#[test]
fn every_listed_name_is_found() {
    let assets = test_assets();
    for name in assets.iter() {
        assert!(assets.get(&name).is_some());
    }
}
