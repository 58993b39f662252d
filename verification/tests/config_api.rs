use snmptools::init_app_name;
use snmptools::init_dynamic_lib_path;
use snmptools::init_env_values;
use snmptools::join_paths;
use snmptools::Config;
use snmptools::Error;
use snmptools::ErrorKind;

#[test]
fn default_config_leaves_env_unset() {
    let config = Config::new();
    let (mibs_value, mib_dirs_value) = init_env_values(&config);
    assert!(mibs_value.is_none());
    assert!(mib_dirs_value.is_none());
}

#[test]
fn default_config_library_and_app_name() {
    let config = Config::new();
    assert_eq!(init_dynamic_lib_path(&config).unwrap(), "libnetsnmp.so");
    assert_eq!(init_app_name(&config).unwrap(), b"snmptools\0");
}

#[test]
fn configured_lists_join_with_colons_in_order() {
    let config = Config::new()
        .mibs(vec![String::from("./ibmConvergedPowerSystems.mib"), String::from("/usr/share/extra.mib")])
        .mib_dirs(vec![String::from("/usr/share/snmp/mibs")]);
    let (mibs_value, mib_dirs_value) = init_env_values(&config);
    assert_eq!(
        mibs_value.unwrap(),
        "./ibmConvergedPowerSystems.mib:/usr/share/extra.mib"
    );
    assert_eq!(mib_dirs_value.unwrap(), "/usr/share/snmp/mibs");
}

#[test]
fn join_preserves_order() {
    let paths = vec![String::from("b"), String::from("a"), String::from("c")];
    assert_eq!(join_paths(&paths), "b:a:c");
    assert_eq!(join_paths(&vec![String::from("only")]), "only");
    assert_eq!(join_paths(&Vec::new()), "");
}

#[test]
fn configured_app_name_is_nul_terminated() {
    let config = Config::new().app_name("myagent");
    assert_eq!(init_app_name(&config).unwrap(), b"myagent\0");
}

#[test]
fn app_name_with_nul_is_invalid_data() {
    let config = Config::new().app_name("my\0agent");
    let err = init_app_name(&config).unwrap_err();
    assert_eq!(err.kind(), ErrorKind::InvalidData);
}

#[test]
fn empty_lib_path_is_failed_before_any_load() {
    let config = Config::new().lib_path("");
    let err = init_dynamic_lib_path(&config).unwrap_err();
    assert_eq!(err.kind(), ErrorKind::Failed);
    assert_eq!(err.message(), "lib path not set");
}

#[test]
fn configured_lib_path_is_handed_through() {
    let config = Config::new().lib_path("/opt/lib/libnetsnmp.so.40");
    assert_eq!(
        init_dynamic_lib_path(&config).unwrap(),
        "/opt/lib/libnetsnmp.so.40"
    );
}

#[test]
fn error_constructors_carry_kind_and_message() {
    let e = Error::invalid_data("bad data");
    assert_eq!(e.kind(), ErrorKind::InvalidData);
    assert_eq!(e.message(), "bad data");
    let e = Error::failed("resolver said no");
    assert_eq!(e.kind(), ErrorKind::Failed);
    assert_eq!(e.message(), "resolver said no");
    assert_ne!(ErrorKind::Failed, ErrorKind::InvalidData);
}
