use edge_ort_runtime::languages::SupportedLanguage;

#[test]
fn test_all_languages_count() {
    assert_eq!(SupportedLanguage::ALL.len(), 16);
}

#[test]
fn test_codes_and_labels_non_empty() {
    for lang in SupportedLanguage::ALL.iter() {
        assert!(!lang.code().is_empty());
        assert!(!lang.label().is_empty());
    }
}

#[test]
fn test_rtl_classification() {
    assert!(SupportedLanguage::Ar.is_rtl());
    assert!(SupportedLanguage::Ur.is_rtl());
    assert!(SupportedLanguage::Fa.is_rtl());
    assert!(!SupportedLanguage::En.is_rtl());
    assert!(!SupportedLanguage::Zh.is_rtl());
}

#[test]
fn test_cjk_classification() {
    assert!(SupportedLanguage::Zh.is_cjk());
    assert!(SupportedLanguage::ZhTw.is_cjk());
    assert!(SupportedLanguage::Ko.is_cjk());
    assert!(SupportedLanguage::Ja.is_cjk());
    assert!(!SupportedLanguage::En.is_cjk());
    assert!(!SupportedLanguage::Ar.is_cjk());
}

#[test]
fn test_from_code_parsing() {
    assert_eq!(SupportedLanguage::from_code("en"), Some(SupportedLanguage::En));
    assert_eq!(SupportedLanguage::from_code("EN"), Some(SupportedLanguage::En));
    assert_eq!(SupportedLanguage::from_code("fr"), Some(SupportedLanguage::Fr));
    assert_eq!(SupportedLanguage::from_code("es"), Some(SupportedLanguage::Es));
    assert_eq!(SupportedLanguage::from_code("ar"), Some(SupportedLanguage::Ar));
    assert_eq!(SupportedLanguage::from_code("ru"), Some(SupportedLanguage::Ru));
    assert_eq!(SupportedLanguage::from_code("hi"), Some(SupportedLanguage::Hi));
    assert_eq!(SupportedLanguage::from_code("zh"), Some(SupportedLanguage::Zh));
    assert_eq!(SupportedLanguage::from_code("zh-tw"), Some(SupportedLanguage::ZhTw));
    assert_eq!(SupportedLanguage::from_code("ko"), Some(SupportedLanguage::Ko));
    assert_eq!(SupportedLanguage::from_code("ja"), Some(SupportedLanguage::Ja));
    assert_eq!(SupportedLanguage::from_code("ur"), Some(SupportedLanguage::Ur));
    assert_eq!(SupportedLanguage::from_code("fa"), Some(SupportedLanguage::Fa));
    assert_eq!(SupportedLanguage::from_code("tr"), Some(SupportedLanguage::Tr));
    assert_eq!(SupportedLanguage::from_code("az"), Some(SupportedLanguage::Az));
    assert_eq!(SupportedLanguage::from_code("hy"), Some(SupportedLanguage::Hy));
    assert_eq!(SupportedLanguage::from_code("auto"), Some(SupportedLanguage::Auto));
    assert_eq!(SupportedLanguage::from_code("multilingual"), Some(SupportedLanguage::Auto));
    assert_eq!(SupportedLanguage::from_code("unknown_xyz"), None);
}

#[test]
fn from_code_round_trips_every_code() {
    for lang in SupportedLanguage::ALL.iter() {
        let parsed = SupportedLanguage::from_code(lang.code());
        if *lang == SupportedLanguage::ZhTw {
            assert_eq!(parsed, Some(SupportedLanguage::Zh));
        } else {
            assert_eq!(parsed, Some(*lang));
        }
    }
}

#[test]
fn from_code_ignores_padding_and_case() {
    assert_eq!(SupportedLanguage::from_code("  Zh_TW \n"), Some(SupportedLanguage::ZhTw));
    assert_eq!(SupportedLanguage::from_code("\tDETECT"), Some(SupportedLanguage::Auto));
    assert_eq!(SupportedLanguage::from_code("zh-CN"), Some(SupportedLanguage::Zh));
    assert_eq!(SupportedLanguage::from_code("e n"), None);
    assert_eq!(SupportedLanguage::from_code(""), None);
}

#[test]
fn codes_and_labels_exact() {
    assert_eq!(SupportedLanguage::Fr.code(), "fr");
    assert_eq!(SupportedLanguage::Fr.label(), "French");
    assert_eq!(SupportedLanguage::ZhTw.code(), "zh");
    assert_eq!(SupportedLanguage::ZhTw.label(), "Taiwanese (zh)");
    assert_eq!(SupportedLanguage::Ur.label(), "Urdu (PK)");
    assert_eq!(SupportedLanguage::Auto.label(), "auto");
}

#[test]
fn labels_are_distinct_and_non_empty() {
    for a in SupportedLanguage::ALL.iter() {
        assert!(!a.label().is_empty());
        for b in SupportedLanguage::ALL.iter() {
            assert_eq!(a.label() == b.label(), a == b);
        }
    }
}
