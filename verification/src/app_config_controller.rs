//! The control plane's rules: what TLS material is acceptable, and how a
//! new list of services replaces the old one.

use vstd::prelude::*;
use crate::app_config::{ApiService, ApiServiceView, AppConfig, ServiceType};
use crate::http_proxy::GeneralError;

verus! {

/// The certificates, in DER form, that `rustls_pemfile::certs` extracts
/// from a PEM text, or `None` when it reports an error.
pub uninterp spec fn pem_certificates(pem: Seq<char>) -> Option<Seq<Seq<u8>>>;

/// The DER form of the PKCS#8 private key that
/// `pkcs8::PrivateKeyDocument::from_pem` reads from a PEM text, or `None`
/// when it reports an error.
pub uninterp spec fn pkcs8_private_key(pem: Seq<char>) -> Option<Seq<u8>>;

/// `rustls_pemfile::certs` on the bytes of a text.
#[verifier::external_body]
fn read_certificates(pem: &str) -> (r: Option<Vec<Vec<u8>>>)
    ensures
        r.deep_view() == pem_certificates(pem@),
{
    let mut reader = std::io::BufReader::new(pem.as_bytes());
    rustls_pemfile::certs(&mut reader).ok()
}

/// `pkcs8::PrivateKeyDocument::from_pem`, the document handed out as its
/// DER bytes.
#[verifier::external_body]
fn read_private_key(pem: &str) -> (r: Option<Vec<u8>>)
    ensures
        r.deep_view() == pkcs8_private_key(pem@),
{
    pkcs8::PrivateKeyDocument::from_pem(pem).ok().map(|doc| doc.as_ref().to_owned())
}

/// What a TLS listener presents: its certificate chain and its private
/// key, both in DER form.
#[derive(Debug, PartialEq, Eq)]
pub struct TlsMaterial {
    pub certificates: Vec<Vec<u8>>,
    pub private_key: Vec<u8>,
}

pub struct TlsMaterialView {
    pub certificates: Seq<Seq<u8>>,
    pub private_key: Seq<u8>,
}

impl View for TlsMaterial {
    type V = TlsMaterialView;

    open spec fn view(&self) -> TlsMaterialView {
        TlsMaterialView {
            certificates: self.certificates.deep_view(),
            private_key: self.private_key.deep_view(),
        }
    }
}

/// The cause reported when a certificate or a key is not configured.
pub open spec fn missing_material_message() -> Seq<char> {
    "cert or key is none"@
}

/// The cause reported when a PEM text holds no readable certificate.
pub open spec fn bad_certificate_message() -> Seq<char> {
    "can not parse the certs pem."@
}

/// The cause reported when a PEM text holds no readable PKCS#8 key.
pub open spec fn bad_key_message() -> Seq<char> {
    "can not parse the key pem."@
}

/// The TLS material that a certificate text and a key text give, or why
/// they give none: both must be configured, the certificate text must hold
/// at least one certificate, and the key text a PKCS#8 key.
pub open spec fn tls_material_for(
    cert_configured: bool,
    key_configured: bool,
    certificates: Option<Seq<Seq<u8>>>,
    private_key: Option<Seq<u8>>,
) -> Result<TlsMaterialView, Seq<char>> {
    if !cert_configured || !key_configured {
        Err(missing_material_message())
    } else if certificates is None || certificates->Some_0.len() == 0 {
        Err(bad_certificate_message())
    } else if private_key is None {
        Err(bad_key_message())
    } else {
        Ok(
            TlsMaterialView {
                certificates: certificates->Some_0,
                private_key: private_key->Some_0,
            },
        )
    }
}

/// The TLS material of a configured certificate and key.
pub open spec fn tls_material_of(cert_pem: Option<Seq<char>>, key_pem: Option<Seq<char>>) -> Result<
    TlsMaterialView,
    Seq<char>,
> {
    tls_material_for(
        cert_pem is Some,
        key_pem is Some,
        match cert_pem {
            Some(pem) => pem_certificates(pem),
            None => None,
        },
        match key_pem {
            Some(pem) => pkcs8_private_key(pem),
            None => None,
        },
    )
}

/// The views inside a result of TLS material.
pub open spec fn material_view(r: Result<TlsMaterial, GeneralError>) -> Result<
    TlsMaterialView,
    Seq<char>,
> {
    match r {
        Ok(m) => Ok(m@),
        Err(e) => Err(e@),
    }
}

/// Judges what was read from a certificate text and a key text.
pub fn judge_tls_material(
    cert_configured: bool,
    key_configured: bool,
    certificates: Option<Vec<Vec<u8>>>,
    private_key: Option<Vec<u8>>,
) -> (r: Result<TlsMaterial, GeneralError>)
    ensures
        material_view(r) == tls_material_for(
            cert_configured,
            key_configured,
            certificates.deep_view(),
            private_key.deep_view(),
        ),
{
    if !cert_configured || !key_configured {
        return Err(GeneralError("cert or key is none".to_owned()));
    }
    let certificates = match certificates {
        Some(list) => list,
        None => {
            return Err(GeneralError("can not parse the certs pem.".to_owned()));
        },
    };
    if certificates.len() == 0 {
        return Err(GeneralError("can not parse the certs pem.".to_owned()));
    }
    match private_key {
        Some(private_key) => Ok(TlsMaterial { certificates, private_key }),
        None => Err(GeneralError("can not parse the key pem.".to_owned())),
    }
}

/// Reads the TLS material of a listener from its configured texts.
pub fn load_tls_material(cert_pem: &Option<String>, key_pem: &Option<String>) -> (r: Result<
    TlsMaterial,
    GeneralError,
>)
    ensures
        material_view(r) == tls_material_of(cert_pem.deep_view(), key_pem.deep_view()),
{
    let certificates = match cert_pem {
        Some(pem) => read_certificates(pem.as_str()),
        None => None,
    };
    let private_key = match key_pem {
        Some(pem) => read_private_key(pem.as_str()),
        None => None,
    };
    judge_tls_material(cert_pem.is_some(), key_pem.is_some(), certificates, private_key)
}

/// Whether a certificate and a key are fit for a TLS listener.
pub open spec fn tls_config_valid(cert_pem: Option<Seq<char>>, key_pem: Option<Seq<char>>) -> bool {
    tls_material_of(cert_pem, key_pem) is Ok
}

/// Checks that a certificate and a key are fit for a TLS listener, and
/// says why if they are not.
pub fn validate_tls_config(cert_pem_option: Option<String>, key_pem_option: Option<String>) -> (r:
    Result<(), GeneralError>)
    ensures
        match r {
            Ok(_) => tls_material_of(cert_pem_option.deep_view(), key_pem_option.deep_view()) is Ok,
            Err(e) => tls_material_of(cert_pem_option.deep_view(), key_pem_option.deep_view())
                == Err::<TlsMaterialView, Seq<char>>(e@),
        },
{
    match load_tls_material(&cert_pem_option, &key_pem_option) {
        Ok(_) => Ok(()),
        Err(e) => Err(e),
    }
}

/// Whether a service may be installed: every HTTPS service needs TLS
/// material that is fit for a listener.
pub open spec fn service_acceptable(service: ApiServiceView) -> bool {
    service.service_config.server_type == ServiceType::HTTPS ==> tls_config_valid(
        service.service_config.cert_str,
        service.service_config.key_str,
    )
}

/// Whether every service of a list may be installed.
pub open spec fn services_acceptable(services: Seq<ApiServiceView>) -> bool {
    forall|i: int| 0 <= i < services.len() ==> service_acceptable(#[trigger] services[i])
}

/// The cause reported when a list of services is turned down.
pub open spec fn rejected_services_message() -> Seq<char> {
    "Parse the key string or the certificate string error!"@
}

/// Checks that every service of a list may be installed.
pub fn check_services(services: &Vec<ApiService>) -> (r: bool)
    ensures
        r == services_acceptable(services.deep_view()),
{
    let mut i: usize = 0;
    while i < services.len()
        invariant
            i <= services.len(),
            forall|j: int|
                0 <= j < i ==> service_acceptable(#[trigger] services.deep_view()[j]),
        decreases services.len() - i,
    {
        assert(services.deep_view()[i as int] == services[i as int]@);
        let config = &services[i].service_config;
        if config.server_type == ServiceType::HTTPS {
            if load_tls_material(&config.cert_str, &config.key_str).is_err() {
                return false;
            }
        }
        i += 1;
    }
    true
}

/// Replaces the desired services wholesale, provided every HTTPS service
/// among the new ones has usable TLS material; otherwise the configuration
/// stays as it is and the list is turned down.
pub fn set_app_config(config: &mut AppConfig, api_services: Vec<ApiService>) -> (r: Result<
    (),
    GeneralError,
>)
    ensures
        final(config)@.static_config == old(config)@.static_config,
        match r {
            Ok(_) => services_acceptable(api_services.deep_view())
                && final(config)@.api_service_config == api_services.deep_view(),
            Err(e) => !services_acceptable(api_services.deep_view()) && final(config)@ == old(
                config,
            )@ && e@ == rejected_services_message(),
        },
{
    if !check_services(&api_services) {
        return Err(
            GeneralError("Parse the key string or the certificate string error!".to_owned()),
        );
    }
    config.api_service_config = api_services;
    Ok(())
}

/// The configuration as the control plane reports it.
pub fn get_app_config(config: &AppConfig) -> (r: AppConfig)
    ensures
        r@ == config@,
{
    config.clone()
}

} // verus!
