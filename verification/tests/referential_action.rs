use dml::catalog::CatalogAction;
use dml::referential_action::ReferentialAction;

const ALL: [ReferentialAction; 5] = [
    ReferentialAction::Cascade,
    ReferentialAction::Restrict,
    ReferentialAction::NoAction,
    ReferentialAction::SetNull,
    ReferentialAction::SetDefault,
];

#[test]
fn as_ref_gives_the_canonical_literal() {
    assert_eq!(ReferentialAction::Cascade.as_ref(), "Cascade");
    assert_eq!(ReferentialAction::Restrict.as_ref(), "Restrict");
    assert_eq!(ReferentialAction::NoAction.as_ref(), "NoAction");
    assert_eq!(ReferentialAction::SetNull.as_ref(), "SetNull");
    assert_eq!(ReferentialAction::SetDefault.as_ref(), "SetDefault");
}

#[test]
fn to_string_gives_the_canonical_literal() {
    assert_eq!(ReferentialAction::Cascade.to_string(), "Cascade");
    assert_eq!(ReferentialAction::Restrict.to_string(), "Restrict");
    assert_eq!(ReferentialAction::NoAction.to_string(), "NoAction");
    assert_eq!(ReferentialAction::SetNull.to_string(), "SetNull");
    assert_eq!(ReferentialAction::SetDefault.to_string(), "SetDefault");
}

#[test]
fn display_form_equals_string_view() {
    for action in ALL {
        let view: &str = action.as_ref();
        assert_eq!(action.to_string(), view);
    }
}

#[test]
fn no_two_actions_share_a_name() {
    for (i, a) in ALL.iter().enumerate() {
        for (j, b) in ALL.iter().enumerate() {
            let same_name = a.as_ref() == b.as_ref();
            assert_eq!(same_name, i == j);
            assert_eq!(a == b, i == j);
        }
    }
}

#[test]
fn every_name_is_one_of_the_five() {
    let names = ["Cascade", "Restrict", "NoAction", "SetNull", "SetDefault"];
    for action in ALL {
        let name: &str = action.as_ref();
        assert_eq!(names.iter().filter(|n| **n == name).count(), 1);
    }
    for name in names {
        assert_eq!(ALL.iter().filter(|a| a.as_ref() == name).count(), 1);
    }
}

#[test]
fn no_action_is_not_restrict() {
    assert_ne!(ReferentialAction::NoAction, ReferentialAction::Restrict);
    assert_ne!(
        ReferentialAction::NoAction.as_ref(),
        ReferentialAction::Restrict.as_ref()
    );
}

#[test]
fn from_catalog_keeps_each_variant() {
    assert_eq!(
        ReferentialAction::from(CatalogAction::Cascade),
        ReferentialAction::Cascade
    );
    assert_eq!(
        ReferentialAction::from(CatalogAction::Restrict),
        ReferentialAction::Restrict
    );
    assert_eq!(
        ReferentialAction::from(CatalogAction::NoAction),
        ReferentialAction::NoAction
    );
    assert_eq!(
        ReferentialAction::from(CatalogAction::SetNull),
        ReferentialAction::SetNull
    );
    assert_eq!(
        ReferentialAction::from(CatalogAction::SetDefault),
        ReferentialAction::SetDefault
    );
}

#[test]
fn from_catalog_keeps_the_name() {
    let pairs = [
        (CatalogAction::Cascade, "Cascade"),
        (CatalogAction::Restrict, "Restrict"),
        (CatalogAction::NoAction, "NoAction"),
        (CatalogAction::SetNull, "SetNull"),
        (CatalogAction::SetDefault, "SetDefault"),
    ];
    for (catalog, name) in pairs {
        assert_eq!(format!("{:?}", catalog), name);
        assert_eq!(ReferentialAction::from(catalog).as_ref(), name);
    }
}

#[test]
fn from_catalog_is_one_to_one_and_onto() {
    let catalog = [
        CatalogAction::Cascade,
        CatalogAction::Restrict,
        CatalogAction::NoAction,
        CatalogAction::SetNull,
        CatalogAction::SetDefault,
    ];
    for (i, c) in catalog.iter().enumerate() {
        for (j, d) in catalog.iter().enumerate() {
            let same = ReferentialAction::from(*c) == ReferentialAction::from(*d);
            assert_eq!(same, i == j);
        }
    }
    for action in ALL {
        assert_eq!(
            catalog
                .iter()
                .filter(|c| ReferentialAction::from(**c) == action)
                .count(),
            1
        );
    }
    for (i, c) in catalog.iter().enumerate() {
        assert_eq!(ReferentialAction::from(*c), ALL[i]);
    }
}

#[test]
fn into_goes_through_the_same_conversion() {
    let action: ReferentialAction = CatalogAction::SetDefault.into();
    assert_eq!(action, ReferentialAction::SetDefault);
}

#[test]
fn an_action_is_a_plain_copyable_value() {
    let a = ReferentialAction::SetNull;
    let b = a;
    let c = a.clone();
    assert_eq!(a, b);
    assert_eq!(a, c);
    assert_eq!(format!("{:?}", a), "SetNull");
}
