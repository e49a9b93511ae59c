use img_service::key::{decimal_string, get_sha1, hex_upper, TransformCfg};
use sha1::{Digest, Sha1};

#[test]
fn image_name_cfg_hash() {
    let mut hasher = Sha1::new();
    let cfg = TransformCfg::new(255, 255);

    hasher.update(cfg.digest());

    let printed = format!("{:X}", hasher.finalize());
    println!("{}", printed);
    assert_eq!(printed, get_sha1("", &cfg));
}

#[test]
fn transform_name_cfg_hash() {
    let mut hasher = Sha1::new();
    let cfg = TransformCfg::new(255, 255);

    hasher.update(cfg.digest());

    let printed = format!("{:X}", hasher.finalize());
    println!("{}", printed);
    assert_eq!(printed, "733DCCFD19639D7607EB662760F81254E39D5061");
}

#[test]
fn new_sets_fields() {
    let cfg = TransformCfg::new(640, 480);
    assert_eq!(cfg.width, 640);
    assert_eq!(cfg.height, 480);
}

#[test]
fn digest_is_height_then_width() {
    assert_eq!(TransformCfg::new(500, 500).digest(), "500500");
    assert_eq!(TransformCfg::new(3, 12).digest(), "123");
    assert_eq!(TransformCfg::new(0, 0).digest(), "00");
    assert_eq!(TransformCfg::new(u32::MAX, 7).digest(), "74294967295");
}

#[test]
fn decimal_text() {
    assert_eq!(decimal_string(0), "0");
    assert_eq!(decimal_string(9), "9");
    assert_eq!(decimal_string(10), "10");
    assert_eq!(decimal_string(4294967295), "4294967295");
}

#[test]
fn hex_is_uppercase_two_digits_per_byte() {
    assert_eq!(hex_upper(&[]), "");
    assert_eq!(hex_upper(&[0x00, 0x0f, 0xab, 0xff]), "000FABFF");
}

#[test]
fn key_of_example_scenario() {
    let key = get_sha1("cat.png", &TransformCfg::new(500, 500));
    assert_eq!(key, "92FA219F689EE5B854CF2F94C5CE2A7C02C01A03");
}

#[test]
fn key_is_deterministic() {
    let cfg = TransformCfg::new(800, 600);
    let a = get_sha1("test-file", &cfg);
    let b = get_sha1("test-file", &TransformCfg::new(800, 600));
    assert_eq!(a, b);
    assert_eq!(a.len(), 40);
}

#[test]
fn key_of_test_file() {
    let key = get_sha1("test-file", &TransformCfg::new(800, 800));
    assert_eq!(key, "87A7D84D99EAE0B84C89099B8A84ED0AA3E71D5F");
}

#[test]
fn distinct_specs_give_distinct_keys() {
    let a = get_sha1("a", &TransformCfg::new(1, 1));
    let b = get_sha1("a", &TransformCfg::new(3, 2));
    assert_eq!(a, "8093D995F066734046DBF5F2224400418733D521");
    assert_eq!(b, "1BA36E6200640EDD06654522FA1137C8C72B4FB0");
    assert_ne!(a, b);
    assert_ne!(a, get_sha1("b", &TransformCfg::new(1, 1)));
}

#[test]
fn concatenation_boundary_collides() {
    let a = get_sha1("cat.png", &TransformCfg::new(3, 12));
    let b = get_sha1("cat.png", &TransformCfg::new(23, 1));
    assert_eq!(a, b);
}
