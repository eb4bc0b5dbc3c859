use iced_x86::{IcedConstants, RepPrefixKind};

#[test]
fn test_repprefixkind_values() {
    let mut iter = RepPrefixKind::values().into_iter();
    assert_eq!(iter.size_hint(), (IcedConstants::REP_PREFIX_KIND_ENUM_COUNT, Some(IcedConstants::REP_PREFIX_KIND_ENUM_COUNT)));
    assert_eq!(iter.len(), IcedConstants::REP_PREFIX_KIND_ENUM_COUNT);
    assert!(iter.next().is_some());
    assert_eq!(iter.size_hint(), (IcedConstants::REP_PREFIX_KIND_ENUM_COUNT - 1, Some(IcedConstants::REP_PREFIX_KIND_ENUM_COUNT - 1)));
    assert_eq!(iter.len(), IcedConstants::REP_PREFIX_KIND_ENUM_COUNT - 1);

    let values: Vec<RepPrefixKind> = RepPrefixKind::values().into_iter().collect();
    assert_eq!(values.len(), IcedConstants::REP_PREFIX_KIND_ENUM_COUNT);
    for (i, value) in values.into_iter().enumerate() {
        assert_eq!(i, value as usize);
    }

    let values1: Vec<RepPrefixKind> = RepPrefixKind::values().into_iter().collect();
    let mut values2: Vec<RepPrefixKind> = RepPrefixKind::values().into_iter().rev().collect();
    values2.reverse();
    assert_eq!(values1, values2);
}

#[test]
fn test_repprefixkind_try_from_usize() {
    for value in RepPrefixKind::values() {
        let converted = <RepPrefixKind as TryFrom<usize>>::try_from(value as usize).unwrap();
        assert_eq!(converted, value);
    }
    assert!(<RepPrefixKind as TryFrom<usize>>::try_from(IcedConstants::REP_PREFIX_KIND_ENUM_COUNT).is_err());
    assert!(<RepPrefixKind as TryFrom<usize>>::try_from(usize::MAX).is_err());
}

#[test]
fn rep_prefix_kind_default_is_no_prefix() {
    assert_eq!(RepPrefixKind::default(), RepPrefixKind::NoPrefix);
    assert_eq!(RepPrefixKind::default() as usize, 0);
}

#[test]
fn rep_prefix_kind_invalid_value_error_message() {
    let e = <RepPrefixKind as TryFrom<usize>>::try_from(3).unwrap_err();
    assert_eq!(e.to_message(), "Invalid RepPrefixKind value");
    assert_eq!(<RepPrefixKind as TryFrom<usize>>::try_from(2).unwrap(), RepPrefixKind::Repne);
    assert_eq!(<RepPrefixKind as TryFrom<usize>>::try_from(1).unwrap(), RepPrefixKind::Repe);
}
