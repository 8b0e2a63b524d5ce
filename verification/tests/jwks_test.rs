use jwk_kit::error::JwkError;
use jwk_kit::jwk::{create_jwks, JwkBuilder};

#[test]
fn test_build_valid_rsa_jwk() {
    let jwk = JwkBuilder::new("RSA")
        .set_modulus("some-modulus")
        .set_exponent("some-exponent")
        .set_algorithm("RS256")
        .set_key_id("key-id")
        .build();

    assert!(jwk.is_ok());

    let jwk = jwk.unwrap();
    assert_eq!(jwk.kty, "RSA");
    assert_eq!(jwk.alg.as_deref(), Some("RS256"));
    assert_eq!(jwk.n.as_deref(), Some("some-modulus"));
    assert_eq!(jwk.e.as_deref(), Some("some-exponent"));
}

#[test]
fn test_build_rsa_missing_params() {
    let result = JwkBuilder::new("RSA")
        .set_exponent("some-exponent")
        .build();

    assert!(matches!(result, Err(JwkError::MissingRsaParams)));
}

#[test]
fn test_build_valid_ec_jwk() {
    let jwk = JwkBuilder::new("EC")
        .set_curve_type("P-256")
        .set_x_coordinate("x-coordinate")
        .set_y_coordinate("y-coordinate")
        .set_algorithm("ES256")
        .build();

    assert!(jwk.is_ok());

    let jwk = jwk.unwrap();
    assert_eq!(jwk.kty, "EC");
    assert_eq!(jwk.crv.as_deref(), Some("P-256"));
    assert_eq!(jwk.x.as_deref(), Some("x-coordinate"));
    assert_eq!(jwk.y.as_deref(), Some("y-coordinate"));
}

#[test]
fn test_build_ec_missing_params() {
    let result = JwkBuilder::new("EC")
        .set_x_coordinate("x-coordinate")
        .set_y_coordinate("y-coordinate")
        .build();

    assert!(matches!(result, Err(JwkError::MissingEcParams)));
}

#[test]
fn test_build_unsupported_key_type() {
    let result = JwkBuilder::new("OCT")
        .build();

    match result {
        Err(JwkError::UnsupportedKeyType(kty)) => assert_eq!(kty, "OCT"),
        _ => panic!("Expected UnsupportedKeyType error with 'OCT'"),
    }
}

#[test]
fn rsa_jwk_holds_what_was_set_and_nothing_else() {
    let jwk = JwkBuilder::new("RSA")
        .set_modulus("some-modulus")
        .set_exponent("some-exponent")
        .set_algorithm("RS256")
        .set_key_id("key-id")
        .build()
        .unwrap();

    assert_eq!(jwk.kty, "RSA");
    assert_eq!(jwk.n.as_deref(), Some("some-modulus"));
    assert_eq!(jwk.e.as_deref(), Some("some-exponent"));
    assert_eq!(jwk.alg.as_deref(), Some("RS256"));
    assert_eq!(jwk.kid.as_deref(), Some("key-id"));
    assert_eq!(jwk.use_, None);
    assert_eq!(jwk.crv, None);
    assert_eq!(jwk.x, None);
    assert_eq!(jwk.y, None);
    assert_eq!(jwk.d, None);
}

#[test]
fn rsa_builds_exactly_when_modulus_and_exponent_are_set() {
    for with_n in [false, true] {
        for with_e in [false, true] {
            for with_others in [false, true] {
                let mut builder = JwkBuilder::new("RSA");
                if with_n {
                    builder.set_modulus("n");
                }
                if with_e {
                    builder.set_exponent("e");
                }
                if with_others {
                    builder
                        .set_key_use("sig")
                        .set_algorithm("RS256")
                        .set_key_id("k")
                        .set_curve_type("P-256")
                        .set_x_coordinate("x")
                        .set_y_coordinate("y")
                        .set_private_key("d");
                }
                match builder.build() {
                    Ok(jwk) => {
                        assert!(with_n && with_e);
                        assert_eq!(jwk.kty, "RSA");
                    }
                    Err(err) => {
                        assert!(!(with_n && with_e));
                        assert_eq!(err, JwkError::MissingRsaParams);
                    }
                }
            }
        }
    }
}

#[test]
fn ec_builds_exactly_when_curve_and_coordinates_are_set() {
    for with_crv in [false, true] {
        for with_x in [false, true] {
            for with_y in [false, true] {
                let mut builder = JwkBuilder::new("EC");
                builder.set_modulus("n").set_exponent("e");
                if with_crv {
                    builder.set_curve_type("P-256");
                }
                if with_x {
                    builder.set_x_coordinate("x");
                }
                if with_y {
                    builder.set_y_coordinate("y");
                }
                match builder.build() {
                    Ok(jwk) => {
                        assert!(with_crv && with_x && with_y);
                        assert_eq!(jwk.kty, "EC");
                    }
                    Err(err) => {
                        assert!(!(with_crv && with_x && with_y));
                        assert_eq!(err, JwkError::MissingEcParams);
                    }
                }
            }
        }
    }
}

#[test]
fn other_key_types_are_refused_by_name() {
    for kty in ["OCT", "", "rsa", "ec", "RSA ", "OKP", "EC2"] {
        let mut builder = JwkBuilder::new(kty);
        builder
            .set_modulus("n")
            .set_exponent("e")
            .set_curve_type("P-256")
            .set_x_coordinate("x")
            .set_y_coordinate("y");
        assert_eq!(
            builder.build().unwrap_err(),
            JwkError::UnsupportedKeyType(kty.to_string())
        );
    }
}

#[test]
fn fields_of_the_other_key_type_pass_through() {
    let jwk = JwkBuilder::new("EC")
        .set_curve_type("P-256")
        .set_x_coordinate("x")
        .set_y_coordinate("y")
        .set_modulus("n")
        .set_exponent("e")
        .set_private_key("d")
        .build()
        .unwrap();
    assert_eq!(jwk.n.as_deref(), Some("n"));
    assert_eq!(jwk.e.as_deref(), Some("e"));
    assert_eq!(jwk.d.as_deref(), Some("d"));

    let jwk = JwkBuilder::new("RSA")
        .set_modulus("n")
        .set_exponent("e")
        .set_x_coordinate("x")
        .build()
        .unwrap();
    assert_eq!(jwk.x.as_deref(), Some("x"));
    assert_eq!(jwk.y, None);
}

#[test]
fn a_setter_replaces_the_earlier_value() {
    let jwk = JwkBuilder::new("RSA")
        .set_modulus("first")
        .set_exponent("AQAB")
        .set_modulus("second")
        .set_key_use("sig")
        .set_key_use("enc")
        .build()
        .unwrap();
    assert_eq!(jwk.n.as_deref(), Some("second"));
    assert_eq!(jwk.use_.as_deref(), Some("enc"));
}

#[test]
fn values_are_stored_as_given() {
    let jwk = JwkBuilder::new("RSA")
        .set_modulus("")
        .set_exponent("not base64 at all: +/=")
        .set_key_id("cl\u{e9} \u{1f511}")
        .build()
        .unwrap();
    assert_eq!(jwk.n.as_deref(), Some(""));
    assert_eq!(jwk.e.as_deref(), Some("not base64 at all: +/="));
    assert_eq!(jwk.kid.as_deref(), Some("cl\u{e9} \u{1f511}"));
}

#[test]
fn build_leaves_the_builder_as_it_was() {
    let mut builder = JwkBuilder::new("RSA");
    builder.set_modulus("n");
    assert_eq!(builder.build().unwrap_err(), JwkError::MissingRsaParams);
    builder.set_exponent("e");
    let first = builder.build().unwrap();
    let second = builder.build().unwrap();
    assert_eq!(first.n, second.n);
    assert_eq!(first.e, second.e);
    assert_eq!(first.kty, second.kty);
}

#[test]
fn an_empty_key_set_has_no_keys() {
    let jwks = create_jwks(Vec::new());
    assert!(jwks.keys.is_empty());
}

#[test]
fn a_key_set_keeps_the_order_of_its_keys() {
    let first = JwkBuilder::new("RSA")
        .set_modulus("n")
        .set_exponent("e")
        .set_key_id("j1")
        .build()
        .unwrap();
    let second = JwkBuilder::new("EC")
        .set_curve_type("P-256")
        .set_x_coordinate("x")
        .set_y_coordinate("y")
        .set_key_id("j2")
        .build()
        .unwrap();
    let jwks = create_jwks(vec![first, second]);
    assert_eq!(jwks.keys.len(), 2);
    assert_eq!(jwks.keys[0].kid.as_deref(), Some("j1"));
    assert_eq!(jwks.keys[0].kty, "RSA");
    assert_eq!(jwks.keys[1].kid.as_deref(), Some("j2"));
    assert_eq!(jwks.keys[1].kty, "EC");
}

#[test]
fn a_key_set_may_hold_one_identifier_twice() {
    let make = || {
        JwkBuilder::new("RSA")
            .set_modulus("n")
            .set_exponent("e")
            .set_key_id("same")
            .build()
            .unwrap()
    };
    let jwks = create_jwks(vec![make(), make(), make()]);
    assert_eq!(jwks.keys.len(), 3);
    assert!(jwks.keys.iter().all(|key| key.kid.as_deref() == Some("same")));
}
