use bsp_loader::vmt::{parse_bool, parse_i32, LightmappedParams, Param, Vmt, VmtEntry, VmtError, VmtShader};

fn kv(key: &str, value: &str) -> VmtEntry {
    VmtEntry::KeyValue { key: key.to_string(), value: value.to_string() }
}

#[test]
fn flags_read_one_true_and_false() {
    assert_eq!(parse_bool("1"), Some(true));
    assert_eq!(parse_bool("true"), Some(true));
    assert_eq!(parse_bool("false"), Some(false));
    assert_eq!(parse_bool("0"), None);
    assert_eq!(parse_bool("TRUE"), None);
    assert_eq!(parse_bool(""), None);
}

#[test]
fn integers_read_as_str_parse_does() {
    assert_eq!(parse_i32("0"), Some(0));
    assert_eq!(parse_i32("42"), Some(42));
    assert_eq!(parse_i32("+7"), Some(7));
    assert_eq!(parse_i32("-12"), Some(-12));
    assert_eq!(parse_i32("2147483647"), Some(i32::MAX));
    assert_eq!(parse_i32("-2147483648"), Some(i32::MIN));
    assert_eq!(parse_i32("2147483648"), None);
    assert_eq!(parse_i32("-2147483649"), None);
    assert_eq!(parse_i32("99999999999999999999"), None);
    assert_eq!(parse_i32(""), None);
    assert_eq!(parse_i32("-"), None);
    assert_eq!(parse_i32("+"), None);
    assert_eq!(parse_i32("1.5"), None);
    assert_eq!(parse_i32(" 1"), None);
    for n in [-1000i32, -1, 0, 1, 255, 65536, 123456789] {
        assert_eq!(parse_i32(&n.to_string()), n.to_string().parse::<i32>().ok());
    }
}

#[test]
fn lightmapped_generic_reads_its_parameters() {
    let entries = vec![
        kv("$BaseTexture", "Concrete\\Wall01"),
        kv("$alphatest", "1"),
        kv("$DetailBlendMode", "-3"),
        kv("$detailscale", "4"),
        kv("$detailblendfactor", "0.25"),
        kv("%compilewater", "1"),
        kv("$surfaceprop", "concrete"),
        VmtEntry::Object { name: "Proxies".to_string() },
        kv("$translucent", "false"),
    ];
    let vmt = Vmt::new("LightmappedGeneric", &entries).unwrap();
    match vmt.shader {
        VmtShader::LightmappedGeneric {
            alpha_test,
            alpha_test_reference,
            bump_map,
            base_texture,
            decal,
            detail,
            detail_blend_factor,
            detail_blend_mode,
            detail_scale,
            self_illum,
            translucent,
        } => {
            assert!(alpha_test);
            assert_eq!(alpha_test_reference, "0.5");
            assert!(bump_map.is_none());
            assert_eq!(base_texture.as_str(), "concrete/wall01");
            assert!(decal.is_none());
            assert!(detail.is_none());
            assert_eq!(detail_blend_factor.as_deref(), Some("0.25"));
            assert_eq!(detail_blend_mode, Some(-3));
            assert_eq!(detail_scale.as_deref(), Some("4"));
            assert!(!self_illum);
            assert!(!translucent);
        }
        VmtShader::Unsupported => panic!("expected LightmappedGeneric"),
    }
}

#[test]
fn unsupported_and_unknown_shaders() {
    for name in ["patch", "UnlitGeneric", "WorldVertexTransition"] {
        assert!(matches!(Vmt::new(name, &[]).unwrap().shader, VmtShader::Unsupported));
    }
    assert_eq!(Vmt::new("VertexLitGeneric", &[]).unwrap_err(), VmtError::UnexpectedShader);
    assert_eq!(Vmt::new("lightmappedgeneric", &[]).unwrap_err(), VmtError::UnexpectedShader);
}

#[test]
fn lightmapped_generic_errors() {
    assert_eq!(
        Vmt::new("LightmappedGeneric", &[kv("$alphatest", "1")]).unwrap_err(),
        VmtError::MissingBaseTexture
    );
    assert_eq!(
        Vmt::new("LightmappedGeneric", &[kv("$basetexture", "a"), kv("$BASETEXTURE", "b")])
            .unwrap_err(),
        VmtError::Duplicate(Param::BaseTexture)
    );
    assert_eq!(
        Vmt::new("LightmappedGeneric", &[kv("$basetexture", "a"), kv("$selfillum", "yes")])
            .unwrap_err(),
        VmtError::BadBool(Param::SelfIllum)
    );
    assert_eq!(
        Vmt::new("LightmappedGeneric", &[kv("$detailblendmode", "x"), kv("$basetexture", "a")])
            .unwrap_err(),
        VmtError::BadInt(Param::DetailBlendMode)
    );
}

#[test]
fn a_failed_set_leaves_parameters_unchanged() {
    let mut params = LightmappedParams::new();
    assert_eq!(params.set(Param::Translucent, "true"), Ok(()));
    assert_eq!(params.set(Param::Translucent, "false"), Err(VmtError::Duplicate(Param::Translucent)));
    assert_eq!(params.translucent, Some(true));
    assert_eq!(params.set(Param::AlphaTest, "maybe"), Err(VmtError::BadBool(Param::AlphaTest)));
    assert_eq!(params.alpha_test, None);
    assert_eq!(params.apply(&kv("$ALPHATESTREFERENCE", "0.7")), Ok(()));
    assert_eq!(params.alpha_test_reference.as_deref(), Some("0.7"));
}
