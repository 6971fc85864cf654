use winmd::{CodedIndex, Column, TableKind};

const CODES: [(CodedIndex, u32, usize); 13] = [
    (CodedIndex::TypeDefOrRef, 2, 3),
    (CodedIndex::HasConstant, 2, 3),
    (CodedIndex::HasCustomAttribute, 5, 22),
    (CodedIndex::HasFieldMarshal, 1, 2),
    (CodedIndex::HasDeclSecurity, 2, 3),
    (CodedIndex::MemberRefParent, 3, 5),
    (CodedIndex::HasSemantics, 1, 2),
    (CodedIndex::MethodDefOrRef, 1, 2),
    (CodedIndex::MemberForwarded, 1, 2),
    (CodedIndex::Implementation, 2, 3),
    (CodedIndex::CustomAttributeType, 3, 5),
    (CodedIndex::ResolutionScope, 2, 4),
    (CodedIndex::TypeOrMethodDef, 1, 2),
];

#[test]
fn tags_take_the_least_number_of_bits() {
    for (kind, bits, count) in CODES {
        assert_eq!(kind.tables().len(), count);
        assert_eq!(kind.base(), 1 << bits);
        assert_eq!(kind.limit(), 1 << (16 - bits));
        assert!(count <= 1 << bits);
        assert!(count > 1 << (bits - 1));
    }
}

#[test]
fn every_candidate_round_trips() {
    for (kind, bits, _) in CODES {
        let tables: Vec<Option<TableKind>> = kind.tables();
        for (tag, table) in tables.iter().enumerate() {
            let table: TableKind = match table {
                Some(table) => *table,
                None => continue,
            };
            assert_eq!(kind.tag_of(table), Some(tag as u32));
            for row in [0u32, 1, 2, 1000, 65535, (1 << (32 - bits)) - 2] {
                let raw: u64 = kind.encode(table, row).unwrap();
                assert_eq!(raw, ((row as u64 + 1) << bits) | tag as u64);
                assert!(raw <= u32::MAX as u64);
                assert_eq!(kind.decode(raw as u32).unwrap(), Some((table, row)));
            }
            // rows that no 32-bit value can name
            assert!(kind.encode(table, u32::MAX).unwrap() > u32::MAX as u64);
            assert!(kind.encode(table, (1 << (32 - bits)) - 1).unwrap() > u32::MAX as u64);
        }
    }
}

#[test]
fn tags_past_the_list_fail() {
    for (kind, bits, count) in CODES {
        for tag in 0..(1u32 << bits) {
            let raw: u32 = (5 << bits) | tag;
            let reserved: bool = (tag as usize) < count && kind.tables()[tag as usize].is_none();
            if tag as usize >= count || reserved {
                assert!(kind.decode(raw).is_err());
            } else {
                assert_eq!(kind.decode(raw).unwrap(), Some((kind.tables()[tag as usize].unwrap(), 4)));
            }
            // a tag past the list fails whatever the row
            if tag as usize >= count {
                assert!(kind.decode(tag).is_err());
            } else {
                assert_eq!(kind.decode(tag).unwrap(), None);
            }
        }
    }
}

#[test]
fn known_values_decode_as_the_format_says() {
    assert_eq!(CodedIndex::TypeDefOrRef.decode(0x0321).unwrap(), Some((TableKind::TypeRef, 0xC7)));
    assert_eq!(CodedIndex::TypeDefOrRef.decode(6).unwrap(), Some((TableKind::TypeSpec, 0)));
    assert_eq!(CodedIndex::HasCustomAttribute.decode(35).unwrap(), Some((TableKind::TypeDef, 0)));
    assert_eq!(CodedIndex::HasCustomAttribute.decode(0x34).unwrap(), Some((TableKind::GenericParamConstraint, 0)));
    assert_eq!(CodedIndex::CustomAttributeType.decode(26).unwrap(), Some((TableKind::MethodDef, 2)));
    assert_eq!(CodedIndex::CustomAttributeType.decode(11).unwrap(), Some((TableKind::MemberRef, 0)));
    assert_eq!(CodedIndex::MemberRefParent.decode(49).unwrap(), Some((TableKind::TypeRef, 5)));
    assert_eq!(CodedIndex::MemberRefParent.decode(0xFFFF_FFFC).unwrap(), Some((TableKind::TypeSpec, 0x1FFF_FFFE)));
    assert_eq!(CodedIndex::ResolutionScope.decode(7).unwrap(), Some((TableKind::TypeRef, 0)));
    assert_eq!(CodedIndex::HasCustomAttribute.encode(TableKind::TypeDef, 0), Some(35));
    assert_eq!(CodedIndex::HasCustomAttribute.encode(TableKind::NestedClass, 0), None);
    assert_eq!(CodedIndex::CustomAttributeType.encode(TableKind::TypeDef, 0), None);
    assert_eq!(CodedIndex::TypeDefOrRef.tag_of(TableKind::MethodDef), None);
}

#[test]
fn tables_have_their_numbers() {
    let mut seen: Vec<usize> = Vec::new();
    for number in 0..64 {
        match TableKind::from_number(number) {
            Some(kind) => {
                assert_eq!(kind.index(), number);
                seen.push(number);
            },
            None => {},
        }
    }
    assert_eq!(seen.len(), 38);
    assert_eq!(seen.first(), Some(&0));
    assert_eq!(seen.last(), Some(&0x2C));
    for missing in [0x03usize, 0x05, 0x07, 0x13, 0x16, 0x1E, 0x1F, 0x2D] {
        assert!(TableKind::from_number(missing).is_none());
    }
    assert_eq!(TableKind::TypeDef.index(), 2);
    assert_eq!(TableKind::MethodDef.index(), 6);
    assert_eq!(TableKind::CustomAttribute.index(), 0x0C);
    assert_eq!(TableKind::GenericParamConstraint.index(), 0x2C);
}

#[test]
fn tables_have_their_columns() {
    assert_eq!(
        TableKind::TypeDef.columns(),
        [
            Column::Fixed(4),
            Column::Strings,
            Column::Strings,
            Column::Coded(CodedIndex::TypeDefOrRef),
            Column::Row(TableKind::Field),
            Column::Row(TableKind::MethodDef),
        ]
    );
    assert_eq!(
        TableKind::CustomAttribute.columns(),
        [
            Column::Coded(CodedIndex::HasCustomAttribute),
            Column::Coded(CodedIndex::CustomAttributeType),
            Column::Blobs,
        ]
    );
    assert_eq!(
        TableKind::Module.columns(),
        [Column::Fixed(2), Column::Strings, Column::Guids, Column::Guids, Column::Guids]
    );
    assert_eq!(TableKind::Assembly.columns().len(), 9);
    assert_eq!(TableKind::StandaloneSig.columns(), [Column::Blobs]);
}
