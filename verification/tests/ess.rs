use drogue_microbit::{
    AttUuid, Attribute, EnvironmentSensingService, Handle, HandleRange, LengthMismatch,
};

fn range(start: u16, end: u16) -> HandleRange {
    HandleRange::new(Handle::from_raw(start), Handle::from_raw(end))
}

fn handles(attrs: &[Attribute]) -> Vec<u16> {
    attrs.iter().map(|a| a.handle.as_u16()).collect()
}

const READING: [u8; 4] = [0x00, 0x00, 0x00, 0x15];

#[test]
fn table_has_three_fixed_attributes() {
    let svc = EnvironmentSensingService::new(&READING);
    let attrs = svc.resolve(range(1, 3));
    assert_eq!(attrs.len(), 3);

    assert_eq!(attrs[0].att_type, AttUuid::Uuid16(0x2800));
    assert_eq!(attrs[0].handle, Handle::from_raw(0x0001));
    assert_eq!(attrs[0].value, vec![0x1A, 0x18]);

    assert_eq!(attrs[1].att_type, AttUuid::Uuid16(0x2803));
    assert_eq!(attrs[1].handle, Handle::from_raw(0x0002));
    assert_eq!(attrs[1].value, vec![0x12, 0x03, 0x00, 0x1C, 0x2A]);

    assert_eq!(attrs[2].att_type, AttUuid::Uuid16(0x2A1C));
    assert_eq!(attrs[2].handle, Handle::from_raw(0x0003));
    assert_eq!(attrs[2].value, READING.to_vec());
}

#[test]
fn characteristic_declaration_points_at_the_value() {
    let svc = EnvironmentSensingService::new(&READING);
    let attrs = svc.resolve(range(2, 2));
    let declaration = attrs[0].value();
    assert_eq!(declaration[0], 0x02 | 0x10);
    assert_eq!(declaration[0], drogue_microbit::ess::PROPERTIES);
    assert_eq!(u16::from_le_bytes([declaration[1], declaration[2]]), 0x0003);
    assert_eq!(u16::from_le_bytes([declaration[3], declaration[4]]), 0x2A1C);
    let service = svc.resolve(range(1, 1));
    assert_eq!(u16::from_le_bytes([service[0].value[0], service[0].value[1]]), 0x181A);
}

#[test]
fn range_above_the_table_is_empty() {
    let svc = EnvironmentSensingService::new(&READING);
    assert!(svc.resolve(range(0x0004, 0x0010)).is_empty());
    assert!(svc.resolve(range(0xFFFF, 0xFFFF)).is_empty());
}

#[test]
fn single_handle_yields_the_primary_service() {
    let svc = EnvironmentSensingService::new(&READING);
    let attrs = svc.resolve(range(0x0001, 0x0001));
    assert_eq!(attrs.len(), 1);
    assert_eq!(attrs[0].att_type, AttUuid::Uuid16(0x2800));
    assert_eq!(attrs[0].handle.as_u16(), 0x0001);
    assert_eq!(attrs[0].value, vec![0x1A, 0x18]);
}

#[test]
fn declaration_then_measurement() {
    let svc = EnvironmentSensingService::new(&READING);
    let attrs = svc.resolve(range(0x0002, 0x0003));
    assert_eq!(attrs.len(), 2);
    assert_eq!(attrs[0].att_type, AttUuid::Uuid16(0x2803));
    assert_eq!(attrs[0].handle.as_u16(), 0x0002);
    assert_eq!(attrs[1].att_type, AttUuid::Uuid16(0x2A1C));
    assert_eq!(attrs[1].handle.as_u16(), 0x0003);
    assert_eq!(attrs[1].value, READING.to_vec());
}

#[test]
fn end_beyond_the_table_is_clamped() {
    let svc = EnvironmentSensingService::new(&READING);
    assert_eq!(handles(svc.resolve(range(1, 0xFFFF))), vec![1, 2, 3]);
    assert_eq!(handles(svc.resolve(range(3, 0x0010))), vec![3]);
    assert_eq!(handles(svc.resolve(range(2, 4))), vec![2, 3]);
}

#[test]
fn range_that_ends_before_it_starts_is_empty() {
    let svc = EnvironmentSensingService::new(&READING);
    assert!(svc.resolve(range(3, 1)).is_empty());
    assert!(svc.resolve(range(2, 1)).is_empty());
    assert!(svc.resolve(range(0x0010, 2)).is_empty());
}

#[test]
fn reserved_handle_selects_nothing_itself() {
    let svc = EnvironmentSensingService::new(&READING);
    assert!(svc.resolve(range(0, 0)).is_empty());
    assert_eq!(handles(svc.resolve(range(0, 2))), vec![1, 2]);
}

#[test]
fn resolved_is_the_subsequence_within_the_range() {
    let svc = EnvironmentSensingService::new(&READING);
    let all: Vec<u16> = vec![1, 2, 3];
    for start in 0u16..8 {
        for end in 0u16..8 {
            let expected: Vec<u16> =
                all.iter().copied().filter(|h| start <= *h && *h <= end).collect();
            let got = handles(svc.resolve(range(start, end)));
            assert_eq!(got, expected, "range [{}, {}]", start, end);

            let last = std::cmp::min(end as i64, 3);
            let first = std::cmp::max(start as i64, 1);
            let length = std::cmp::max(0, last - first + 1);
            assert_eq!(got.len() as i64, length, "range [{}, {}]", start, end);
        }
    }
}

#[test]
fn resolved_handles_ascend() {
    let svc = EnvironmentSensingService::new(&READING);
    let got = handles(svc.resolve(range(1, 3)));
    assert!(got.windows(2).all(|w| w[0] < w[1]));
    assert_eq!(got, vec![1, 2, 3]);
}

#[test]
fn only_primary_service_groups() {
    let svc = EnvironmentSensingService::new(&READING);
    assert!(svc.is_grouping_attr(AttUuid::Uuid16(0x2800)));
    assert!(!svc.is_grouping_attr(AttUuid::Uuid16(0x2803)));
    assert!(!svc.is_grouping_attr(AttUuid::Uuid16(0x2A1C)));
    assert!(!svc.is_grouping_attr(AttUuid::Uuid16(0x2801)));
    assert!(!svc.is_grouping_attr(AttUuid::Uuid16(0x0000)));
    assert!(!svc.is_grouping_attr(AttUuid::Uuid16(0x0028)));
    assert!(!svc.is_grouping_attr(AttUuid::Uuid16(0x181A)));
}

const BASE: [u8; 16] = [
    0x00, 0x00, 0x00, 0x00, 0x00, 0x00, 0x10, 0x00, 0x80, 0x00, 0x00, 0x80, 0x5F, 0x9B, 0x34, 0xFB,
];

fn expanded(alias: u16) -> [u8; 16] {
    let mut bytes = BASE;
    bytes[2] = (alias >> 8) as u8;
    bytes[3] = alias as u8;
    bytes
}

#[test]
fn primary_service_written_in_full_groups_too() {
    let svc = EnvironmentSensingService::new(&READING);
    assert!(svc.is_grouping_attr(AttUuid::Uuid128(expanded(0x2800))));
    assert!(!svc.is_grouping_attr(AttUuid::Uuid128(expanded(0x2803))));
    assert!(!svc.is_grouping_attr(AttUuid::Uuid128(expanded(0x2A1C))));
    assert!(!svc.is_grouping_attr(AttUuid::Uuid128(expanded(0x0028))));
    assert!(!svc.is_grouping_attr(AttUuid::Uuid128(BASE)));
    assert!(!svc.is_grouping_attr(AttUuid::Uuid128([0; 16])));
}

#[test]
fn full_uuid_off_the_base_is_no_alias() {
    for at in 0..16 {
        let mut bytes = expanded(0x2800);
        bytes[at] ^= 0x01;
        assert!(!AttUuid::Uuid128(bytes).eq_uuid16(0x2800), "byte {}", at);
    }
    let mut wide = expanded(0x2800);
    wide[0] = 0x01;
    assert!(!AttUuid::Uuid128(wide).eq_uuid16(0x2800));
}

#[test]
fn alias_comparison_agrees_in_both_forms() {
    for alias in [0x0000u16, 0x0001, 0x00FF, 0x0100, 0x2800, 0x2803, 0x2A1C, 0xFFFF] {
        for other in [0x0000u16, 0x0001, 0x00FF, 0x0100, 0x2800, 0x2803, 0x2A1C, 0xFFFF] {
            let same = alias == other;
            assert_eq!(AttUuid::Uuid16(alias).eq_uuid16(other), same);
            assert_eq!(AttUuid::Uuid128(expanded(alias)).eq_uuid16(other), same);
        }
    }
}

#[test]
fn groups_end_at_the_value() {
    let svc = EnvironmentSensingService::new(&READING);
    for start in [0x0001u16, 0x0002] {
        let last = svc.group_end(Handle::from_raw(start)).expect("a group starts here");
        assert_eq!(last.handle, Handle::from_raw(0x0003));
        assert_eq!(last.att_type, AttUuid::Uuid16(0x2A1C));
        assert_eq!(last.value, READING.to_vec());
    }
}

#[test]
fn other_handles_start_no_group() {
    let svc = EnvironmentSensingService::new(&READING);
    assert!(svc.group_end(Handle::from_raw(0x0003)).is_none());
    assert!(svc.group_end(Handle::from_raw(0x0005)).is_none());
    assert!(svc.group_end(Handle::from_raw(0x0000)).is_none());
    assert!(svc.group_end(Handle::from_raw(0x0004)).is_none());
    assert!(svc.group_end(Handle::from_raw(0xFFFF)).is_none());
}

#[test]
fn set_value_round_trip() {
    let mut svc = EnvironmentSensingService::new(&READING);
    let next = [0xDE, 0xAD, 0xBE, 0xEF];
    assert_eq!(svc.set_value(&next), Ok(()));
    assert_eq!(svc.value(), &next[..]);
    let attrs = svc.resolve(range(3, 3));
    assert_eq!(attrs.len(), 1);
    assert_eq!(attrs[0].value, next.to_vec());
    assert_eq!(attrs[0].handle.as_u16(), 3);
    assert_eq!(attrs[0].att_type, AttUuid::Uuid16(0x2A1C));
    let last = svc.group_end(Handle::from_raw(1)).expect("a group starts here");
    assert_eq!(last.value, next.to_vec());
}

#[test]
fn set_value_leaves_the_declarations() {
    let mut svc = EnvironmentSensingService::new(&READING);
    assert_eq!(svc.set_value(&[1, 2, 3, 4]), Ok(()));
    let attrs = svc.resolve(range(1, 2));
    assert_eq!(attrs[0].value, vec![0x1A, 0x18]);
    assert_eq!(attrs[1].value, vec![0x12, 0x03, 0x00, 0x1C, 0x2A]);
    assert_eq!(handles(svc.resolve(range(1, 3))), vec![1, 2, 3]);
}

#[test]
fn set_value_twice_keeps_the_last() {
    let mut svc = EnvironmentSensingService::new(&READING);
    assert_eq!(svc.set_value(&[1, 2, 3, 4]), Ok(()));
    assert_eq!(svc.set_value(&[5, 6, 7, 8]), Ok(()));
    assert_eq!(svc.value(), &[5, 6, 7, 8][..]);
}

#[test]
fn set_value_rejects_other_lengths() {
    let mut svc = EnvironmentSensingService::new(&READING);
    assert_eq!(svc.set_value(&[1, 2, 3]), Err(LengthMismatch { expected: 4, actual: 3 }));
    assert_eq!(svc.value(), &READING[..]);
    assert_eq!(svc.set_value(&[1, 2, 3, 4, 5]), Err(LengthMismatch { expected: 4, actual: 5 }));
    assert_eq!(svc.value(), &READING[..]);
    assert_eq!(svc.set_value(&[]), Err(LengthMismatch { expected: 4, actual: 0 }));
    assert_eq!(svc.value(), &READING[..]);
    assert_eq!(svc.resolve(range(3, 3))[0].value, READING.to_vec());
}

#[test]
fn empty_cell_takes_only_empty_readings() {
    let mut svc = EnvironmentSensingService::new(&[]);
    assert_eq!(svc.set_value(&[]), Ok(()));
    assert_eq!(svc.set_value(&[1]), Err(LengthMismatch { expected: 0, actual: 1 }));
    assert!(svc.value().is_empty());
    assert_eq!(handles(svc.resolve(range(1, 3))), vec![1, 2, 3]);
}

#[test]
fn walk_visits_the_range_in_order() {
    let svc = EnvironmentSensingService::new(&READING);
    let mut seen: Vec<(u16, AttUuid, Vec<u8>)> = Vec::new();
    let r = svc.for_attrs_in_range(range(1, 3), |_, attr| {
        seen.push((attr.handle.as_u16(), attr.att_type, attr.value.clone()));
        Ok(())
    });
    assert_eq!(r, Ok(()));
    assert_eq!(
        seen,
        vec![
            (1, AttUuid::Uuid16(0x2800), vec![0x1A, 0x18]),
            (2, AttUuid::Uuid16(0x2803), vec![0x12, 0x03, 0x00, 0x1C, 0x2A]),
            (3, AttUuid::Uuid16(0x2A1C), READING.to_vec()),
        ]
    );
}

#[test]
fn walk_over_an_empty_range_calls_nothing() {
    let svc = EnvironmentSensingService::new(&READING);
    let mut calls = 0;
    let r = svc.for_attrs_in_range(range(4, 0x0010), |_, _| {
        calls += 1;
        Err(rubble::Error::InvalidValue)
    });
    assert_eq!(r, Ok(()));
    assert_eq!(calls, 0);
}

#[test]
fn walk_stops_at_the_first_error() {
    let svc = EnvironmentSensingService::new(&READING);
    let mut seen: Vec<u16> = Vec::new();
    let r = svc.for_attrs_in_range(range(1, 3), |_, attr| {
        seen.push(attr.handle.as_u16());
        if attr.handle.as_u16() == 2 {
            Err(rubble::Error::Eof)
        } else {
            Ok(())
        }
    });
    assert_eq!(r, Err(rubble::Error::Eof));
    assert_eq!(seen, vec![1, 2]);
}

#[test]
fn walk_returns_the_error_unchanged() {
    let svc = EnvironmentSensingService::new(&READING);
    let r = svc.for_attrs_in_range(range(3, 3), |_, _| Err(rubble::Error::InvalidLength));
    assert_eq!(r, Err(rubble::Error::InvalidLength));
    let r = svc.for_attrs_in_range(range(1, 1), |_, _| Err(rubble::Error::IncompleteParse));
    assert_eq!(r, Err(rubble::Error::IncompleteParse));
}

#[test]
fn walk_hands_the_table_to_the_callback() {
    let svc = EnvironmentSensingService::new(&READING);
    let mut cells: Vec<Vec<u8>> = Vec::new();
    let r = svc.for_attrs_in_range(range(2, 0x0010), |table, _| {
        cells.push(table.value().to_vec());
        Ok(())
    });
    assert_eq!(r, Ok(()));
    assert_eq!(cells, vec![READING.to_vec(), READING.to_vec()]);
    assert_eq!(svc.value(), &READING[..]);
}

#[test]
fn handle_and_range_keep_their_ends() {
    let h = Handle::from_raw(0x1234);
    assert_eq!(h.as_u16(), 0x1234);
    let r = range(7, 9);
    assert_eq!(r.start(), Handle::from_raw(7));
    assert_eq!(r.end(), Handle::from_raw(9));
}

#[test]
fn attribute_keeps_its_parts() {
    let attr = Attribute::new(AttUuid::Uuid16(0x2A1C), Handle::from_raw(9), vec![1, 2]);
    assert_eq!(attr.att_type, AttUuid::Uuid16(0x2A1C));
    assert_eq!(attr.handle.as_u16(), 9);
    assert_eq!(attr.value(), &[1, 2][..]);
}
