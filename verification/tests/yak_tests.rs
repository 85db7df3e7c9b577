use isekai::yak::{
    BundleFileFormat, ExternalCommunication, YakModule, YakModuleHeader, YakModuleSignature,
    YakModuleType,
};
use sha2::Digest;

#[test]
fn write_and_read() {
    let mut m = YakModule {
        header: Default::default(),
        module: vec![0, 1, 2, 3],
        module_js: vec![4, 5, 6],
        bundle_file: vec![],
        digest: vec![],
        signature: YakModuleSignature { signature: vec![] },
    };
    m.set_bundle_binary(&[7, 8, 9]);

    let buf = m.write().unwrap();
    let m2 = YakModule::read(&buf).unwrap();

    assert_eq!(m.header.module_type, m2.header.module_type);
    assert_eq!(m.header.module_kind, m2.header.module_kind);
    assert_eq!(m.header.module_file_name, m2.header.module_file_name);
    assert_eq!(m.header.module_js_file_name, m2.header.module_js_file_name);
    assert_eq!(m.header.module_length, m2.header.module_length);
    assert_eq!(m.header.module_js_length, m2.header.module_js_length);
    assert_eq!(m.header.bundle_file_format, m2.header.bundle_file_format);
    assert_eq!(m.header.bundle_file_length, m2.header.bundle_file_length);
    assert!(m2.header.ext_com.is_none());
    assert_eq!(m.module(), m2.module());
    assert_eq!(m.module_js(), m2.module_js());
    assert_eq!(m.bundle_file, m2.bundle_file);
    assert_eq!(m.digest, m2.digest);
    assert_eq!(m.signature.signature, m2.signature.signature);
}

#[test]
fn write_and_read_with_signature_and_endpoint() {
    let mut m = YakModule::new(&vec![9, 9, 9]);
    m.signature.signature = vec![4, 5, 6];
    m.header.ext_com = Some(ExternalCommunication {
        endpoint: "https://example.invalid:50053".to_string(),
        use_tls: true,
        ca_cert_pem: Some(vec![45, 45, 45]),
    });

    let buf = m.write().unwrap();
    let m2 = YakModule::read(&buf).unwrap();
    assert_eq!(m2.signature.signature, vec![4, 5, 6]);
    let e = m2.header.ext_com.as_ref().unwrap();
    assert_eq!(e.endpoint, "https://example.invalid:50053");
    assert!(e.use_tls);
    assert_eq!(e.ca_cert_pem.as_deref(), Some(&[45u8, 45, 45][..]));
    assert_eq!(m2.digest.len(), 32);
}

#[test]
fn digest_covers_the_content() {
    let mut a = YakModule::new(&vec![1, 2, 3]);
    let mut b = YakModule::new(&vec![1, 2, 4]);
    let wa = a.write().unwrap();
    let wb = b.write().unwrap();
    assert_ne!(a.digest, b.digest);
    assert_ne!(wa, wb);
    let expected = sha2::Sha256::digest(&wa[..wa.len() - 32]).to_vec();
    assert_eq!(a.digest, expected);
}

#[test]
fn header_json_is_what_serde_reads() {
    let mut h: YakModuleHeader = Default::default();
    h.module_type = YakModuleType::Pyodide;
    h.module_file_name = "mod.wasm".to_string();
    h.module_length = 42;
    h.bundle_file_format = BundleFileFormat::Binary;
    let json = h.to_json();
    let v: serde_json::Value = serde_json::from_str(&json).unwrap();
    assert_eq!(v["module_type"], "Pyodide");
    assert_eq!(v["module_kind"], "Function");
    assert_eq!(v["module_file_name"], "mod.wasm");
    assert_eq!(v["module_length"], 42);
    assert_eq!(v["bundle_file_format"], "Binary");
    assert!(v["ext_com"].is_null());

    let h2 = YakModuleHeader::from_json(&json).unwrap();
    assert_eq!(h2.module_type, YakModuleType::Pyodide);
    assert_eq!(h2.module_length, 42);
    assert_eq!(h2.module_file_name, "mod.wasm");
}

#[test]
fn truncated_containers_are_refused() {
    let mut m = YakModule::new(&vec![1, 2, 3]);
    let buf = m.write().unwrap();
    assert!(YakModule::read(&buf[..buf.len() - 40].to_vec()).is_err());
    assert!(YakModule::read(&vec![1, 2]).is_err());
}
