use ncnn_rs::{Allocator, Mat, MatPixelType, NcnnError, Net};

#[test]
fn load_not_exist_model() {
    let mut net = Net::new();
    // the native loader's status for a file that is not there
    net.load_param("not_exist.param", -1)
        .expect_err("Expected param to be not found");
}

#[test]
fn failed_topology_load_leaves_no_weights() {
    let mut net = Net::new();
    net.load_param("model.param", 0).unwrap();
    net.load_model("model.bin", 0).unwrap();
    assert!(net.state().param_loaded && net.state().model_loaded);
    match net.load_param("not_exist.param", -1) {
        Err(NcnnError::LoadParam { path }) => assert_eq!(path, "not_exist.param"),
        other => panic!("unexpected {:?}", other),
    }
    assert!(!net.state().model_loaded);
    assert!(!net.state().param_loaded);
}

#[test]
fn weights_load_outcome_is_recorded() {
    let mut net = Net::new();
    net.load_param("a.param", 0).unwrap();
    assert!(net.load_model("a.bin", 3).is_err());
    assert!(net.state().param_loaded);
    assert!(!net.state().model_loaded);
    assert!(matches!(net.load_model_datareader(-1), Err(NcnnError::LoadReader)));
    assert!(net.load_model_datareader(0).is_ok());
    assert!(net.state().model_loaded);
}

#[test]
fn weights_without_topology_are_refused() {
    let mut net = Net::new();
    match net.load_model("model.bin", 0) {
        Err(NcnnError::LoadModel { path }) => assert_eq!(path, "model.bin"),
        other => panic!("unexpected {:?}", other),
    }
    assert!(!net.state().model_loaded);
    assert!(matches!(net.load_model_datareader(0), Err(NcnnError::LoadReader)));
    assert!(!net.state().model_loaded);
    assert!(matches!(net.load_model("bad\0path", 0), Err(NcnnError::EmbeddedNul { .. })));
    assert!(!net.state().model_loaded);
}

#[test]
fn extractors_share_a_network() {
    let alloc = Allocator::new();
    let a = Mat::create_1d(4, &alloc);
    let mut net = Net::new();
    net.load_param("a.param", 0).unwrap();
    let mut first = net.create_extractor();
    let mut second = net.create_extractor();
    first.input("x", &a, 0).unwrap();
    assert_eq!(first.binding("x"), Some(a.shape()));
    assert_eq!(second.binding("x"), None);
    second.input("y", &a, 0).unwrap();
    assert_eq!(first.binding("y"), None);
}

#[test]
fn path_with_nul_is_rejected() {
    let mut net = Net::new();
    match net.load_param("bad\0path", 0) {
        Err(NcnnError::EmbeddedNul { text }) => assert_eq!(text, "bad\0path"),
        other => panic!("unexpected {:?}", other),
    }
    assert!(!net.state().param_loaded);
    assert!(ncnn_rs::net::check_native_text("fine").is_ok());
    assert!(ncnn_rs::net::check_native_text("\0").is_err());
}

#[test]
fn failed_bind_keeps_earlier_bindings() {
    let alloc = Allocator::new();
    let a = Mat::create_3d(8, 8, 3, &alloc);
    let b = Mat::create_1d(5, &alloc);
    let net = Net::new();
    let mut ex = net.create_extractor();
    ex.input("data", &a, 0).unwrap();
    match ex.input("missing", &b, -1) {
        Err(NcnnError::Bind { name }) => assert_eq!(name, "missing"),
        other => panic!("unexpected {:?}", other),
    }
    assert_eq!(ex.binding("data"), Some(a.shape()));
    assert_eq!(ex.binding("missing"), None);
    match ex.input("data", &b, -1) {
        Err(NcnnError::Bind { .. }) => {}
        other => panic!("unexpected {:?}", other),
    }
    assert_eq!(ex.binding("data"), Some(a.shape()));
}

#[test]
fn rebinding_a_name_replaces_it() {
    let alloc = Allocator::new();
    let a = Mat::create_3d(8, 8, 3, &alloc);
    let b = Mat::create_2d(2, 2, &alloc);
    let net = Net::new();
    let mut ex = net.create_extractor();
    ex.input("x", &a, 0).unwrap();
    ex.input("y", &a, 0).unwrap();
    ex.input("x", &b, 0).unwrap();
    assert_eq!(ex.binding("x"), Some(b.shape()));
    assert_eq!(ex.binding("y"), Some(a.shape()));
}

#[test]
fn extract_writes_output_only_on_success() {
    let alloc = Allocator::new();
    let input = Mat::from_pixels(&[0u8; 12], MatPixelType::RGB, 2, 2, &alloc).unwrap();
    let mut out = Mat::new();
    let produced = Mat::create_1d(10, &alloc).shape();
    let net = Net::new();
    {
        let mut ex = net.create_extractor();
        ex.input("in0", &input, 0).unwrap();
        match ex.extract("out0", &mut out, produced, -1) {
            Err(NcnnError::Extract { name }) => assert_eq!(name, "out0"),
            other => panic!("unexpected {:?}", other),
        }
    }
    assert_eq!(out.get_dims(), 0);
    let mut ex = net.create_extractor();
    ex.input("in0", &input, 0).unwrap();
    ex.extract("out0", &mut out, produced, 0).unwrap();
    assert_eq!(out.get_dims(), 1);
    assert_eq!(out.get_w(), 10);
}
