use rusoto::codegen::{
    cargo_toml_contents, cargo_toml_path, latest_protocol_date, lib_rs_contents, lib_rs_path,
    module_name, needs_serde, service_source_dir, Service,
};

#[test]
fn lib_rs_contents_names_the_module() {
    let expected = "\n\t\t#![crate_name = \"rusoto_sqs\"]\n\t\t#![crate_type = \"lib\"]\n\t\tpub mod sqs;\n\n\t\textern crate hyper;\n\t\textern crate rusoto_credential;\n\t\textern crate rusoto_core;\n\t\textern crate xml;\n\t";
    assert_eq!(lib_rs_contents("sqs"), expected);
}

#[test]
fn lib_rs_contents_replaces_hyphens() {
    let contents = lib_rs_contents("elastic-beanstalk");
    assert!(contents.contains("#![crate_name = \"rusoto_elastic_beanstalk\"]"));
    assert!(contents.contains("pub mod elastic_beanstalk;"));
    assert!(!contents.contains('-'));
}

#[test]
fn module_name_replaces_every_hyphen() {
    assert_eq!(module_name("a-b-c"), "a_b_c");
    assert_eq!(module_name("sqs"), "sqs");
    assert_eq!(module_name(""), "");
    assert_eq!(module_name("--"), "__");
}

#[test]
fn cargo_toml_contents_names_crate_and_version() {
    let expected = "
[package]
authors = [
    \"Anthony DiMarco <ocramida@gmail.com>\",
    \"Jimmy Cuadra <jimmy@jimmycuadra.com>\",
    \"Matthew Mayer <matthewkmayer@gmail.com>\",
    \"Nikita Pekin <contact@nikitapek.in>\"
]

description = \"AWS SQS\"
documentation = \"http://rusoto.github.io/rusoto/rusoto/index.html\"
keywords = [\"AWS\", \"Amazon\"]
license = \"MIT\"
name = \"rusoto_elastic-beanstalk\"
repository = \"https://github.com/rusoto/rusoto\"
version = \"0.22.0\"

[dependencies]
hyper = \"0.10.0\"
hyper-native-tls = \"0.2.1\"
xml-rs = \"0.3\"

[dependencies.rusoto_core]
path = \"../../rusoto_core\"
version = \"0.22.0\"

[dependencies.rusoto_credential]
path = \"../../credential\"
version = \"0.4.0\"
\t\t";
    assert_eq!(cargo_toml_contents("elastic-beanstalk", "0.22.0"), expected);
}

#[test]
fn file_paths_of_a_service() {
    assert_eq!(lib_rs_path("sqs"), "sqs/src/lib.rs");
    assert_eq!(cargo_toml_path("sqs"), "sqs/Cargo.toml");
    assert_eq!(service_source_dir("sqs"), "services/sqs/src");
}

#[test]
fn generation_paths_of_a_service() {
    let service = Service::new("sqs".to_string(), "2012-11-05".to_string());
    assert_eq!(service.name, "sqs");
    let paths = service.generation_paths("/data/");
    assert_eq!(paths.botocore_source, "sqs/src/sqs_botocore.rs");
    assert_eq!(paths.module_source, "sqs/src/sqs.rs");
    assert_eq!(paths.service_definition, "/data/sqs/2012-11-05/service-2.json");
    assert_ne!(paths.botocore_source, paths.module_source);
}

#[test]
fn json_protocols_need_serde() {
    assert!(needs_serde("json"));
    assert!(needs_serde("rest-json"));
    assert!(!needs_serde("query"));
    assert!(!needs_serde("rest-xml"));
    assert!(!needs_serde("ec2"));
    assert!(!needs_serde("JSON"));
    assert!(!needs_serde(""));
}

#[test]
fn latest_protocol_date_is_last_in_sorted_order() {
    let dates = vec![
        "2014-11-01".to_string(),
        "2016-01-14".to_string(),
        "2012-11-05".to_string(),
        "2015-06-30".to_string(),
    ];
    assert_eq!(latest_protocol_date(&dates), Some("2016-01-14".to_string()));
    let mut sorted = dates.clone();
    sorted.sort();
    assert_eq!(latest_protocol_date(&dates).as_ref(), sorted.last());
}

#[test]
fn latest_protocol_date_of_no_dates_is_none() {
    assert_eq!(latest_protocol_date(&Vec::new()), None);
}

#[test]
fn latest_protocol_date_prefers_longer_equal_prefix() {
    let dates = vec!["2016".to_string(), "2016-01".to_string(), "2015-12".to_string()];
    assert_eq!(latest_protocol_date(&dates), Some("2016-01".to_string()));
}

#[test]
fn latest_protocol_date_is_independent_of_order() {
    let a = vec!["b".to_string(), "a".to_string(), "c".to_string()];
    let b = vec!["c".to_string(), "b".to_string(), "a".to_string()];
    assert_eq!(latest_protocol_date(&a), latest_protocol_date(&b));
}

#[test]
fn latest_protocol_date_of_one_date() {
    assert_eq!(latest_protocol_date(&vec!["x".to_string()]), Some("x".to_string()));
}
