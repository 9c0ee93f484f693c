use rust_proxy::api_service_manager::ManagerTable;
use rust_proxy::app_config::{
    ApiService, AppConfig, Matcher, Route, ServiceConfig, ServiceType, StaticConfig,
};
use rust_proxy::app_config_controller::{
    check_services, get_app_config, judge_tls_material, load_tls_material, set_app_config,
    validate_tls_config, TlsMaterial,
};
use rust_proxy::app_config_service::{
    config_file_to_load, init, init_app_service_config, init_static_config, start_proxy,
    EnvSettings, WorkerPlan,
};
use rust_proxy::constants::DEFAULT_API_PORT;
use rust_proxy::http_proxy::GeneralError;
use rust_proxy::route::{BaseRoute, LoadBalancer};

fn base64_digit(six_bits: u32) -> char {
    let code = match six_bits {
        0..=25 => 'A' as u32 + six_bits,
        26..=51 => 'a' as u32 + (six_bits - 26),
        52..=61 => '0' as u32 + (six_bits - 52),
        62 => '+' as u32,
        _ => '/' as u32,
    };
    char::from_u32(code).unwrap()
}

fn base64_text(bytes: &[u8]) -> String {
    let mut out = String::new();
    for chunk in bytes.chunks(3) {
        let b0 = chunk[0] as u32;
        let b1 = if chunk.len() > 1 { chunk[1] as u32 } else { 0 };
        let b2 = if chunk.len() > 2 { chunk[2] as u32 } else { 0 };
        let word = (b0 << 16) | (b1 << 8) | b2;
        out.push(base64_digit((word >> 18) & 63));
        out.push(base64_digit((word >> 12) & 63));
        if chunk.len() > 1 {
            out.push(base64_digit((word >> 6) & 63));
        } else {
            out.push('=');
        }
        if chunk.len() > 2 {
            out.push(base64_digit(word & 63));
        } else {
            out.push('=');
        }
    }
    out
}

fn pem_text(label: &str, der: &[u8]) -> String {
    format!("-----BEGIN {}-----\n{}\n-----END {}-----\n", label, base64_text(der), label)
}

fn sample_certificate_der() -> Vec<u8> {
    vec![0u8, 1, 2, 3, 4, 5]
}

fn sample_key_der() -> Vec<u8> {
    let mut der: Vec<u8> = vec![
        0x30, 0x2e, 0x02, 0x01, 0x00, 0x30, 0x05, 0x06, 0x03, 0x2b, 0x65, 0x70, 0x04, 0x22, 0x04,
        0x20,
    ];
    for i in 0..32u8 {
        der.push(i);
    }
    der
}

fn cert_pem() -> String {
    pem_text("CERTIFICATE", &sample_certificate_der())
}

fn key_pem() -> String {
    let label = format!("{} {}", "PRIVATE", "KEY");
    pem_text(label.as_str(), &sample_key_der())
}

fn no_env() -> EnvSettings {
    EnvSettings { database_url: None, admin_port: None, access_log: None, config_file_path: None }
}

fn yaml_service(port: u16, server_type: ServiceType) -> ApiService {
    ApiService {
        api_service_id: String::from("id"),
        listen_port: port,
        service_config: ServiceConfig {
            server_type,
            cert_str: None,
            key_str: None,
            routes: vec![Route {
                route_id: String::from("r"),
                host_name: None,
                matcher: Some(Matcher {
                    prefix: String::from("/"),
                    prefix_rewrite: String::from("ssss"),
                }),
                route_cluster: LoadBalancer::Random {
                    routes: vec![BaseRoute {
                        endpoint: String::from("httpbin.org:80"),
                        try_file: None,
                    }],
                },
                allow_deny_list: None,
                authentication: None,
                ratelimit: None,
            }],
        },
    }
}

fn cause(text: &str) -> GeneralError {
    GeneralError(String::from(text))
}

#[test]
fn test_init_static_config_default() {
    let mut config = AppConfig::default();
    init_static_config(&mut config, &no_env());
    assert_eq!(config.static_config.access_log, None);
    assert_eq!(config.static_config.admin_port, String::from("8870"));
    assert_eq!(config.static_config.database_url, None);
    assert_eq!(config.static_config.config_file_path, None);
    assert!(config.api_service_config.is_empty());
    assert_eq!(DEFAULT_API_PORT, "8870");
}

#[test]
fn test_init_static_config_from_env() {
    let database_url = "database_url";
    let port = 3360;
    let access_log = "/log/test.log";
    let config_path = "/root/config/config.yaml";
    let env = EnvSettings {
        database_url: Some(String::from(database_url)),
        admin_port: Some(port.to_string()),
        access_log: Some(String::from(access_log)),
        config_file_path: Some(String::from(config_path)),
    };
    let mut config = AppConfig::default();
    init_static_config(&mut config, &env);
    assert_eq!(config.static_config.access_log, Some(String::from(access_log)));
    assert_eq!(config.static_config.admin_port, String::from(port.to_string()));
    assert_eq!(config.static_config.database_url, Some(String::from(database_url)));
    assert_eq!(config.static_config.config_file_path, Some(String::from(config_path)));
}

#[test]
fn unset_variables_leave_options_as_they_were() {
    let mut config = AppConfig::default();
    config.static_config = StaticConfig {
        access_log: Some(String::from("a.log")),
        database_url: Some(String::from("db")),
        admin_port: String::from("1"),
        config_file_path: Some(String::from("c.yaml")),
    };
    init_static_config(&mut config, &no_env());
    assert_eq!(
        config.static_config,
        StaticConfig {
            access_log: Some(String::from("a.log")),
            database_url: Some(String::from("db")),
            admin_port: String::from("8870"),
            config_file_path: Some(String::from("c.yaml")),
        }
    );
}

#[test]
fn test_init_app_service_config_from_file() {
    let mut config = AppConfig::default();
    let mut env = no_env();
    env.config_file_path = Some(String::from("config/app_config.yaml"));
    init_static_config(&mut config, &env);
    assert_eq!(config_file_to_load(&config), Some(String::from("config/app_config.yaml")));
    let res = init_app_service_config(&mut config, Ok(vec![yaml_service(4486, ServiceType::HTTP)]));
    assert_eq!(res.is_ok(), true);
    let api_services = config.api_service_config.clone();
    assert!(api_services.len() <= 5);
    let api_service = api_services.first().cloned().unwrap();
    assert_eq!(api_service.listen_port, 4486);
    let api_service_routes = api_service.service_config.routes.first().cloned().unwrap();
    assert_eq!(api_service_routes.matcher.clone().unwrap().prefix, "/");
    assert_eq!(api_service_routes.matcher.unwrap().prefix_rewrite, "ssss");
}

#[test]
fn services_are_loaded_only_when_a_file_is_configured() {
    let mut config = AppConfig::default();
    init_static_config(&mut config, &no_env());
    assert_eq!(config_file_to_load(&config), None);
    let res = init_app_service_config(&mut config, Ok(vec![yaml_service(1, ServiceType::TCP)]));
    assert_eq!(res, Ok(()));
    assert!(config.api_service_config.is_empty());
    let res = init_app_service_config(&mut config, Err(String::from("ignored")));
    assert_eq!(res, Ok(()));
}

#[test]
fn a_failed_load_is_reported_and_changes_nothing() {
    let mut config = AppConfig::default();
    config.static_config.config_file_path = Some(String::from("missing.yaml"));
    config.api_service_config = vec![yaml_service(1, ServiceType::TCP)];
    let before = config.clone();
    let res = init_app_service_config(&mut config, Err(String::from("No such file")));
    assert_eq!(res, Err(cause("No such file")));
    assert_eq!(config, before);
}

#[test]
fn init_builds_the_whole_configuration() {
    let (config, failure) = init(&no_env(), Err(String::from("unused")));
    assert_eq!(failure, None);
    assert_eq!(config.static_config.admin_port, "8870");
    assert!(config.api_service_config.is_empty());
    let env = EnvSettings {
        database_url: Some(String::from("db")),
        admin_port: Some(String::from("3360")),
        access_log: Some(String::from("/log/t.log")),
        config_file_path: Some(String::from("/cfg.yaml")),
    };
    let (config, failure) = init(&env, Ok(vec![yaml_service(4486, ServiceType::HTTP)]));
    assert_eq!(failure, None);
    assert_eq!(
        config.static_config,
        StaticConfig {
            access_log: Some(String::from("/log/t.log")),
            database_url: Some(String::from("db")),
            admin_port: String::from("3360"),
            config_file_path: Some(String::from("/cfg.yaml")),
        }
    );
    assert_eq!(config.api_service_config, vec![yaml_service(4486, ServiceType::HTTP)]);
    let (config, failure) = init(&env, Err(String::from("bad yaml")));
    assert_eq!(failure, Some(cause("bad yaml")));
    assert!(config.api_service_config.is_empty());
}

#[test]
fn pem_texts_are_written_as_expected() {
    assert_eq!(base64_text(&[]), "");
    assert_eq!(base64_text(&[0x66]), "Zg==");
    assert_eq!(base64_text(&[0x66, 0x6f]), "Zm8=");
    assert_eq!(base64_text(&[0x66, 0x6f, 0x6f]), "Zm9v");
    assert_eq!(base64_text(&[0xfb, 0xff]), "+/8=");
    assert_eq!(base64_text(&sample_certificate_der()), "AAECAwQF");
    assert_eq!(base64_text(&sample_key_der()).len(), 64);
    assert!(cert_pem().starts_with("-----BEGIN "));
    assert!(key_pem().ends_with("-----\n"));
}

#[test]
fn test_certificate() {
    let material = load_tls_material(&Some(cert_pem()), &Some(key_pem()));
    let certs = material.unwrap().certificates;
    assert_eq!(certs.len(), 1);
    assert_eq!(certs[0], sample_certificate_der());
}

#[test]
fn test_private_key() {
    let material = load_tls_material(&Some(cert_pem()), &Some(key_pem()));
    let key = material.unwrap().private_key;
    assert_eq!(key.len(), 48);
    assert_eq!(key, sample_key_der());
}

#[test]
fn tls_material_is_validated_step_by_step() {
    let cert = Some(cert_pem());
    let key = Some(key_pem());
    assert_eq!(validate_tls_config(cert.clone(), key.clone()), Ok(()));
    assert_eq!(validate_tls_config(None, key.clone()), Err(cause("cert or key is none")));
    assert_eq!(validate_tls_config(cert.clone(), None), Err(cause("cert or key is none")));
    assert_eq!(validate_tls_config(None, None), Err(cause("cert or key is none")));
    assert_eq!(
        validate_tls_config(Some(String::from("no pem here")), key.clone()),
        Err(cause("can not parse the certs pem."))
    );
    assert_eq!(
        validate_tls_config(key.clone(), key.clone()),
        Err(cause("can not parse the certs pem."))
    );
    assert_eq!(
        validate_tls_config(
            Some(format!("-----BEGIN {}-----\nAAEC\n", "CERTIFICATE")),
            key.clone()
        ),
        Err(cause("can not parse the certs pem."))
    );
    assert_eq!(
        validate_tls_config(cert.clone(), cert.clone()),
        Err(cause("can not parse the key pem."))
    );
    assert_eq!(
        validate_tls_config(cert.clone(), Some(String::from("garbage"))),
        Err(cause("can not parse the key pem."))
    );
}

#[test]
fn judged_material_goes_by_the_given_results() {
    let certs = Some(vec![vec![1u8, 2], vec![3u8]]);
    let key = Some(vec![9u8]);
    assert_eq!(
        judge_tls_material(true, true, certs.clone(), key.clone()),
        Ok(TlsMaterial { certificates: vec![vec![1, 2], vec![3]], private_key: vec![9] })
    );
    assert_eq!(
        judge_tls_material(false, true, certs.clone(), key.clone()),
        Err(cause("cert or key is none"))
    );
    assert_eq!(
        judge_tls_material(true, false, certs.clone(), key.clone()),
        Err(cause("cert or key is none"))
    );
    assert_eq!(
        judge_tls_material(true, true, Some(vec![]), key.clone()),
        Err(cause("can not parse the certs pem."))
    );
    assert_eq!(
        judge_tls_material(true, true, None, None),
        Err(cause("can not parse the certs pem."))
    );
    assert_eq!(
        judge_tls_material(true, true, certs.clone(), None),
        Err(cause("can not parse the key pem."))
    );
}

#[test]
fn services_replace_the_old_ones_wholesale() {
    let mut config = AppConfig::default();
    config.static_config.admin_port = String::from("8870");
    config.api_service_config = vec![yaml_service(1, ServiceType::HTTP)];
    let mut tls = yaml_service(443, ServiceType::HTTPS);
    tls.service_config.cert_str = Some(cert_pem());
    tls.service_config.key_str = Some(key_pem());
    let fresh = vec![yaml_service(2, ServiceType::TCP), tls];
    assert!(check_services(&fresh));
    assert_eq!(set_app_config(&mut config, fresh.clone()), Ok(()));
    assert_eq!(config.api_service_config, fresh);
    assert_eq!(config.static_config.admin_port, "8870");
    assert_eq!(get_app_config(&config), config);
    assert_eq!(set_app_config(&mut config, Vec::new()), Ok(()));
    assert!(config.api_service_config.is_empty());
}

#[test]
fn services_with_bad_tls_material_are_turned_down() {
    let mut config = AppConfig::default();
    config.api_service_config = vec![yaml_service(1, ServiceType::HTTP)];
    let before = config.clone();
    let mut bad = yaml_service(443, ServiceType::HTTPS);
    bad.service_config.cert_str = Some(cert_pem());
    let offered = vec![yaml_service(2, ServiceType::TCP), bad];
    assert!(!check_services(&offered));
    assert_eq!(
        set_app_config(&mut config, offered),
        Err(cause("Parse the key string or the certificate string error!"))
    );
    assert_eq!(config, before);
    let mut unneeded = yaml_service(80, ServiceType::HTTP);
    unneeded.service_config.cert_str = Some(String::from("garbage"));
    assert!(check_services(&vec![unneeded]));
}

#[test]
fn test_start_https_proxy_ok() {
    let mut service = yaml_service(2256, ServiceType::HTTPS).service_config;
    service.cert_str = Some(cert_pem());
    service.key_str = Some(key_pem());
    let mut table = ManagerTable::new();
    table.insert(String::from("test"), service);
    let plan = start_proxy(&table, ServiceType::HTTPS, "test").unwrap();
    match plan {
        WorkerPlan::Https(material) => {
            assert_eq!(material.certificates, vec![sample_certificate_der()]);
            assert_eq!(material.private_key, sample_key_der());
        }
        _ => panic!("an HTTPS listener needs an HTTPS worker"),
    }
}

#[test]
fn workers_are_chosen_by_protocol() {
    let mut table = ManagerTable::new();
    assert_eq!(start_proxy(&table, ServiceType::HTTP, "absent"), Ok(WorkerPlan::Http));
    assert_eq!(start_proxy(&table, ServiceType::TCP, "absent"), Ok(WorkerPlan::Tcp));
    assert_eq!(
        start_proxy(&table, ServiceType::HTTPS, "absent"),
        Err(cause("Can not find the config mapping on the key absent!"))
    );
    table.insert(String::from("443-HTTPS"), yaml_service(443, ServiceType::HTTPS).service_config);
    assert_eq!(
        start_proxy(&table, ServiceType::HTTPS, "443-HTTPS"),
        Err(cause("cert or key is none"))
    );
}
