use eunomia::parser::guideline::GuidelineID;
use eunomia::Error;

#[test]
fn good_guideline_id() {
    let id_1 = "P.Exam.Ple.01".parse::<GuidelineID>();
    let id_2 = "G.typ.arr.04".parse::<GuidelineID>();
    let id_3 = "P.VAR.CONST.02".parse::<GuidelineID>();

    assert_eq!(
        id_1,
        Ok(GuidelineID {
            ty: 'p',
            group: "exam.ple".to_string(),
            idx: "01".to_string()
        })
    );
    assert_eq!(
        id_2,
        Ok(GuidelineID {
            ty: 'g',
            group: "typ.arr".to_string(),
            idx: "04".to_string()
        })
    );
    assert_eq!(
        id_3,
        Ok(GuidelineID {
            ty: 'p',
            group: "var.const".to_string(),
            idx: "02".to_string()
        })
    );
}

#[test]
fn guideline_id_with_various_length() {
    let id_1 = "P.Exam.Ple.With.Various.Len.999".parse::<GuidelineID>();
    let id_2 = "g.TEST.01".parse::<GuidelineID>();

    assert_eq!(
        id_1,
        Ok(GuidelineID {
            ty: 'p',
            group: "exam.ple.with.various.len".to_string(),
            idx: "999".to_string()
        })
    );
    assert_eq!(
        id_2,
        Ok(GuidelineID {
            ty: 'g',
            group: "test".to_string(),
            idx: "01".to_string()
        })
    );
}

#[test]
fn bad_guideline_id() {
    // missing type (prefix)
    let id_1 = ".Exam.Ple.01".parse::<GuidelineID>();
    // missing index (postfix)
    let id_2 = "P.typ.int.i32.".parse::<GuidelineID>();
    // missing body
    let id_3 = "P.P".parse::<GuidelineID>();
    // type is not a single character
    let id_4 = "Guide.Typ.Arr.04".parse::<GuidelineID>();

    assert!(id_1.is_err());
    assert!(id_2.is_err());
    assert!(id_3.is_err());
    assert!(id_4.is_err());
}

#[test]
fn guideline_id_cmp_with_str() {
    let id_1 = "p.typ.int.01";
    let id_2 = "G.TyP.INt.02";
    let id_3 = "G.TYP.INT.03";

    assert!(id_1.parse::<GuidelineID>().unwrap().matches_str(id_1));
    assert!(id_2
        .parse::<GuidelineID>()
        .unwrap()
        .matches_str(&id_2.to_lowercase()));
    assert!(id_3
        .parse::<GuidelineID>()
        .unwrap()
        .matches_str(&id_3.to_lowercase()));
}

#[test]
fn guideline_id_round_trip_is_canonical() {
    let id = "P.Exam.Ple.01".parse::<GuidelineID>().unwrap();
    let text = id.to_string();
    assert_eq!(text, "p.exam.ple.01");
    let reparsed = text.parse::<GuidelineID>().unwrap();
    assert_eq!(id, reparsed);
    assert_eq!(reparsed.to_string(), text);
}

#[test]
fn guideline_id_keeps_index_case() {
    let id = "g.Typ.Arr.0A".parse::<GuidelineID>().unwrap();
    assert_eq!(id.idx, "0A");
    assert_eq!(id.to_string(), "g.typ.arr.0A");
}

#[test]
fn guideline_id_error_payloads() {
    assert_eq!(
        "noseparator".parse::<GuidelineID>(),
        Err(Error::InvalidGuidelineID("noseparator".to_string()))
    );
    assert_eq!(
        "Guide.Typ.Arr.04".parse::<GuidelineID>(),
        Err(Error::InvalidGuidelineType("Guide".to_string()))
    );
    assert_eq!(
        ".Exam.Ple.01".parse::<GuidelineID>(),
        Err(Error::InvalidGuidelineType("".to_string()))
    );
    assert_eq!(
        "P.grouponly.".parse::<GuidelineID>(),
        Err(Error::InvalidGuidelineID("P.grouponly.".to_string()))
    );
}
