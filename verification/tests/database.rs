use winmd::{
    ArgumentSig, Category, CodedIndex, CustomAttributeType, Database, Error, HasCustomAttribute,
    MemberRefParent, MethodDef, Region, Rows, Sizes, TableKind, TypeDef, TypeDefOrRef, TypeRef,
};

/// A metadata image under construction: two heaps and the rows of some
/// tables, already laid out in bytes.
struct Image {
    strings: Vec<u8>,
    blobs: Vec<u8>,
    tables: Vec<(u8, u32, Vec<u8>)>,
}

fn put(out: &mut Vec<u8>, value: u64, width: usize) {
    for i in 0..width {
        out.push((value >> (8 * i)) as u8);
    }
}

fn padded(name: &[u8]) -> Vec<u8> {
    let mut out: Vec<u8> = name.to_vec();
    out.push(0);
    while out.len() % 4 != 0 {
        out.push(0);
    }
    out
}

impl Image {
    fn new() -> Image {
        Image { strings: vec![0], blobs: vec![0], tables: Vec::new() }
    }

    fn text(&mut self, text: &str) -> u32 {
        let at: u32 = self.strings.len() as u32;
        self.strings.extend_from_slice(text.as_bytes());
        self.strings.push(0);
        at
    }

    fn blob(&mut self, bytes: &[u8]) -> u32 {
        assert!(bytes.len() < 0x80);
        let at: u32 = self.blobs.len() as u32;
        self.blobs.push(bytes.len() as u8);
        self.blobs.extend_from_slice(bytes);
        at
    }

    fn table(&mut self, kind: TableKind, widths: &[usize], rows: &[Vec<u32>]) {
        let mut data: Vec<u8> = Vec::new();
        for row in rows {
            assert_eq!(row.len(), widths.len());
            for (cell, width) in row.iter().zip(widths.iter()) {
                put(&mut data, *cell as u64, *width);
            }
        }
        self.tables.push((kind.index() as u8, rows.len() as u32, data));
        self.tables.sort_by_key(|table| table.0);
    }

    fn stream(&self, flags: u8) -> Vec<u8> {
        let mut out: Vec<u8> = Vec::new();
        put(&mut out, 0, 4);
        out.push(2);
        out.push(0);
        out.push(flags);
        out.push(1);
        let mut valid: u64 = 0;
        for table in &self.tables {
            valid |= 1u64 << table.0;
        }
        put(&mut out, valid, 8);
        put(&mut out, 0, 8);
        for table in &self.tables {
            put(&mut out, table.1 as u64, 4);
        }
        for table in &self.tables {
            out.extend_from_slice(&table.2);
        }
        out
    }

    fn build(&self) -> Vec<u8> {
        let guids: Vec<u8> = vec![0; 16];
        let streams: Vec<(Vec<u8>, Vec<u8>)> = vec![
            (padded(b"#~"), self.stream(0)),
            (padded(b"#Strings"), self.strings.clone()),
            (padded(b"#US"), vec![0]),
            (padded(b"#GUID"), guids),
            (padded(b"#Blob"), self.blobs.clone()),
        ];
        let version: Vec<u8> = b"v4.0.30319\0\0".to_vec();
        let mut header: usize = 16 + version.len() + 4;
        for stream in &streams {
            header += 8 + stream.0.len();
        }
        let mut out: Vec<u8> = Vec::new();
        put(&mut out, 0x424A_5342, 4);
        put(&mut out, 1, 2);
        put(&mut out, 1, 2);
        put(&mut out, 0, 4);
        put(&mut out, version.len() as u64, 4);
        out.extend_from_slice(&version);
        put(&mut out, 0, 2);
        put(&mut out, streams.len() as u64, 2);
        let mut at: usize = header;
        for stream in &streams {
            put(&mut out, at as u64, 4);
            put(&mut out, stream.1.len() as u64, 4);
            out.extend_from_slice(&stream.0);
            at += stream.1.len();
        }
        assert_eq!(out.len(), header);
        for stream in &streams {
            out.extend_from_slice(&stream.1);
        }
        out
    }
}

fn type_ref(row: u32) -> u32 {
    ((row + 1) << 2) | 1
}

fn type_def(row: u32) -> u32 {
    (row + 1) << 2
}

fn on_type(row: u32) -> u32 {
    ((row + 1) << 5) | 3
}

fn on_method(row: u32) -> u32 {
    (row + 1) << 5
}

fn by_method(row: u32) -> u32 {
    ((row + 1) << 3) | 2
}

fn by_member(row: u32) -> u32 {
    ((row + 1) << 3) | 3
}

fn counted(text: &str) -> Vec<u8> {
    let mut out: Vec<u8> = vec![text.len() as u8];
    out.extend_from_slice(text.as_bytes());
    out
}

fn named(kind: u8, name: &str, value: &[u8]) -> Vec<u8> {
    let mut out: Vec<u8> = vec![0x53, kind];
    out.extend_from_slice(&counted(name));
    out.extend_from_slice(value);
    out
}

/// The value blob with the five named arguments that the test below expects.
fn five_named() -> Vec<u8> {
    let mut out: Vec<u8> = vec![0x01, 0x00, 0x05, 0x00];
    out.extend_from_slice(&named(0x02, "Bools", &[0]));
    out.extend_from_slice(&named(0x08, "Integers", &[0x41, 0x01, 0x00, 0x00]));
    out.extend_from_slice(&named(0x0E, "Strings", &counted("Hello world")));
    out.extend_from_slice(&named(0x50, "Types", &counted("Test.TypeStruct")));
    let mut enums: Vec<u8> = vec![0x54, 0x55];
    enums.extend_from_slice(&counted("Test.TypeEnum"));
    enums.extend_from_slice(&counted("Enums"));
    enums.extend_from_slice(&[3, 0, 0, 0]);
    out.extend_from_slice(&enums);
    out
}

/// Eight types, seven methods, three member references and five
/// attributes, laid out as the format requires.
fn sample_image() -> Image {
    let mut image: Image = Image::new();
    let system: u32 = image.text("System");
    let test: u32 = image.text("Test");
    let ctor: u32 = image.text(".ctor");
    let no_args: u32 = image.blob(&[0x20, 0x00, 0x01]);
    let one_string: u32 = image.blob(&[0x20, 0x01, 0x01, 0x0E]);
    let plain: u32 = image.blob(&[0x01, 0x00, 0x00, 0x00]);
    let old: u32 = {
        let mut value: Vec<u8> = vec![0x01, 0x00];
        value.extend_from_slice(&counted("old"));
        value.extend_from_slice(&[0x00, 0x00]);
        image.blob(&value)
    };
    let five: u32 = image.blob(&five_named());

    let mut refs: Vec<Vec<u32>> = Vec::new();
    for name in ["Attribute", "ValueType", "Enum", "MulticastDelegate", "Object", "ObsoleteAttribute"] {
        let name: u32 = image.text(name);
        refs.push(vec![0, name, system]);
    }
    image.table(TableKind::TypeRef, &[2, 2, 2], &refs);

    let types: [(&str, u32, u32, u32); 8] = [
        ("ITypeAttribute", 0xA0, 0, 1),
        ("TypeAttribute", 0, type_ref(0), 3),
        ("TypeStruct", 0, type_ref(1), 4),
        ("TypeEnum", 0, type_ref(2), 4),
        ("TypeDelegate", 0, type_ref(3), 4),
        ("TypeClass", 0, type_ref(4), 5),
        ("Derived", 0, type_def(5), 7),
        ("IMarked", 0x20, type_ref(2), 7),
    ];
    let mut defs: Vec<Vec<u32>> = Vec::new();
    for (name, flags, extends, methods) in types {
        let name: u32 = image.text(name);
        defs.push(vec![flags, name, test, extends, 1, methods]);
    }
    image.table(TableKind::TypeDef, &[4, 2, 2, 2, 2, 2], &defs);

    let mut methods: Vec<Vec<u32>> = Vec::new();
    for (name, flags) in [("Get", 0), ("Set", 0), (".ctor", 0x800), ("Invoke", 0), ("Run", 0), ("Stop", 0), ("Mark", 0)] {
        let name: u32 = if name == ".ctor" { ctor } else { image.text(name) };
        methods.push(vec![0, 0, flags, name, no_args, 1]);
    }
    image.table(TableKind::MethodDef, &[4, 2, 2, 2, 2, 2], &methods);

    let members: Vec<Vec<u32>> = vec![
        vec![((5 + 1) << 3) | 1, ctor, one_string],
        vec![(1 + 1) << 3, ctor, no_args],
        vec![((0 + 1) << 3) | 3, ctor, no_args],
    ];
    image.table(TableKind::MemberRef, &[2, 2, 2], &members);

    let attributes: Vec<Vec<u32>> = vec![
        vec![on_method(0), by_method(2), plain],
        vec![on_type(0), by_method(2), five],
        vec![on_type(5), by_member(2), plain],
        vec![on_type(5), by_member(0), old],
        vec![on_type(6), by_member(1), plain],
    ];
    image.table(TableKind::CustomAttribute, &[2, 2, 2], &attributes);
    image
}

fn sample() -> Database {
    Database::open(sample_image().build()).unwrap()
}

const KINDS: [TableKind; 38] = [
    TableKind::Module,
    TableKind::TypeRef,
    TableKind::TypeDef,
    TableKind::Field,
    TableKind::MethodDef,
    TableKind::Param,
    TableKind::InterfaceImpl,
    TableKind::MemberRef,
    TableKind::Constant,
    TableKind::CustomAttribute,
    TableKind::FieldMarshal,
    TableKind::DeclSecurity,
    TableKind::ClassLayout,
    TableKind::FieldLayout,
    TableKind::StandaloneSig,
    TableKind::EventMap,
    TableKind::Event,
    TableKind::PropertyMap,
    TableKind::Property,
    TableKind::MethodSemantics,
    TableKind::MethodImpl,
    TableKind::ModuleRef,
    TableKind::TypeSpec,
    TableKind::ImplMap,
    TableKind::FieldRva,
    TableKind::Assembly,
    TableKind::AssemblyProcessor,
    TableKind::AssemblyOs,
    TableKind::AssemblyRef,
    TableKind::AssemblyRefProcessor,
    TableKind::AssemblyRefOs,
    TableKind::File,
    TableKind::ExportedType,
    TableKind::ManifestResource,
    TableKind::NestedClass,
    TableKind::GenericParam,
    TableKind::MethodSpec,
    TableKind::GenericParamConstraint,
];

#[test]
fn attributes() -> Result<(), Error> {
    let reader: Database = sample();

    let t: TypeDef = reader.find("Test", "ITypeAttribute").unwrap();

    let attribute = t.find_attribute("Test", "TypeAttribute")?;
    let args = attribute.arguments()?;

    println!("{}", args.len());

    assert!(args.len() == 5);

    assert!(args[0].0 == "Bools");
    assert!(args[0].1 == ArgumentSig::Bool(false));

    assert!(args[1].0 == "Integers");
    assert!(args[1].1 == ArgumentSig::I32(321));

    assert!(args[2].0 == "Strings");
    assert!(args[2].1 == ArgumentSig::String("Hello world"));

    assert!(args[3].0 == "Types");
    assert!(args[3].1 == ArgumentSig::Type(reader.find("Test", "TypeStruct").unwrap()));

    assert!(args[4].0 == "Enums");
    assert!(args[4].1 == ArgumentSig::I32(3));

    Ok(())
}

#[test]
fn arguments_distinguish_values() {
    let db: Database = sample();
    let t: TypeDef = db.find("Test", "ITypeAttribute").unwrap();
    let args = t.find_attribute("Test", "TypeAttribute").unwrap().arguments().unwrap();
    assert!(args[0].1 != ArgumentSig::Bool(true));
    assert!(args[1].1 != ArgumentSig::I32(320));
    assert!(args[1].1 != ArgumentSig::Bool(false));
    assert!(args[2].1 != ArgumentSig::String("Hello"));
    assert!(args[3].1 != ArgumentSig::Type(db.find("Test", "TypeEnum").unwrap()));
    match args[3].1 {
        ArgumentSig::Type(found) => {
            assert_eq!(found.name().unwrap(), "TypeStruct");
            assert_eq!(found.rows().first(), 2);
        },
        _ => panic!("a type was expected"),
    }
}

#[test]
fn positional_arguments_have_no_name() {
    let db: Database = sample();
    let t: TypeDef = db.find("Test", "TypeClass").unwrap();
    let attribute = t.find_attribute("System", "ObsoleteAttribute").unwrap();
    assert_eq!(attribute.rows().first(), 3);
    let args = attribute.arguments().unwrap();
    assert_eq!(args.len(), 1);
    assert_eq!(args[0].0, "");
    assert!(args[0].1 == ArgumentSig::String("old"));
}

#[test]
fn full_views_span_their_tables() {
    let db: Database = sample();
    for kind in KINDS {
        let rows: Rows = db.table(kind);
        assert_eq!(rows.first(), 0);
        assert_eq!(rows.last(), db.row_count(kind));
        assert_eq!(rows.len(), db.row_count(kind));
    }
    assert_eq!(db.row_count(TableKind::TypeRef), 6);
    assert_eq!(db.row_count(TableKind::TypeDef), 8);
    assert_eq!(db.row_count(TableKind::MethodDef), 7);
    assert_eq!(db.row_count(TableKind::MemberRef), 3);
    assert_eq!(db.row_count(TableKind::CustomAttribute), 5);
    assert_eq!(db.row_count(TableKind::Field), 0);
}

#[test]
fn views_stay_inside_their_tables() {
    let db: Database = sample();
    assert!(Rows::new(&db, TableKind::TypeDef, 7).is_ok());
    assert!(Rows::new(&db, TableKind::TypeDef, 8).is_err());
    assert!(Rows::new(&db, TableKind::Field, 0).is_err());
    assert!(Rows::range(&db, TableKind::TypeDef, 2, 8).is_ok());
    assert!(Rows::range(&db, TableKind::TypeDef, 8, 8).is_ok());
    assert!(Rows::range(&db, TableKind::TypeDef, 2, 9).is_err());
    assert!(Rows::range(&db, TableKind::TypeDef, 3, 2).is_err());
    assert!(Rows::rest(&db, TableKind::TypeDef, 8).is_ok());
    assert!(Rows::rest(&db, TableKind::TypeDef, 9).is_err());
    let rest: Rows = Rows::rest(&db, TableKind::MethodDef, 5).unwrap();
    assert_eq!((rest.first(), rest.last()), (5, 7));
    assert!(TypeDef::new(&db, 8).is_err());
    assert!(TypeRef::range(&db, 0, 7).is_err());
    assert!(MethodDef::rest(&db, 8).is_err());
    assert!(TypeDef::from_rows(db.table(TableKind::TypeRef)).is_none());
    assert!(TypeDef::from_rows(db.table(TableKind::TypeDef)).is_some());
}

#[test]
fn views_step_row_by_row() {
    let db: Database = sample();
    let mut types: TypeDef = TypeDef::range(&db, 0, 8).unwrap();
    let mut names: Vec<String> = Vec::new();
    while let Some(row) = types.next() {
        assert_eq!(row.rows().len(), 1);
        assert_eq!(row.rows().first() as usize, names.len());
        names.push(row.name().unwrap().to_string());
    }
    assert_eq!(
        names,
        ["ITypeAttribute", "TypeAttribute", "TypeStruct", "TypeEnum", "TypeDelegate", "TypeClass", "Derived", "IMarked"]
    );
    assert!(types.next().is_none());
    assert_eq!(types.rows().first(), 8);
    assert_eq!(types.rows().last(), 8);

    let mut rows: Rows = Rows::range(&db, TableKind::TypeRef, 4, 6).unwrap();
    let first: Rows = rows.next().unwrap();
    assert_eq!((first.first(), first.last()), (4, 5));
    assert_eq!(first.str(1).unwrap(), "Object");
    assert_eq!((rows.first(), rows.last()), (5, 6));
    assert!(rows.next().is_some());
    assert!(rows.next().is_none());
}

#[test]
fn method_lists_partition_the_method_table() {
    let db: Database = sample();
    let count: u32 = db.row_count(TableKind::TypeDef);
    let expected: [(u32, u32); 8] =
        [(0, 2), (2, 3), (3, 3), (3, 3), (3, 4), (4, 6), (6, 6), (6, 7)];
    let mut end: u32 = 0;
    for row in 0..count {
        let methods: MethodDef = TypeDef::new(&db, row).unwrap().methods().unwrap();
        assert_eq!(methods.rows().first(), end);
        assert_eq!((methods.rows().first(), methods.rows().last()), expected[row as usize]);
        end = methods.rows().last();
    }
    assert_eq!(end, db.row_count(TableKind::MethodDef));
}

#[test]
fn lists_that_name_no_rows_fail() {
    let mut image: Image = Image::new();
    let name: u32 = image.text("T");
    image.table(
        TableKind::TypeDef,
        &[4, 2, 2, 2, 2, 2],
        &[vec![0, name, 0, 0, 1, 2], vec![0, name, 0, 0, 1, 1], vec![0, name, 0, 0, 0, 4]],
    );
    image.table(TableKind::MethodDef, &[4, 2, 2, 2, 2, 2], &[vec![0, 0, 0, name, 0, 1]]);
    let db: Database = Database::open(image.build()).unwrap();
    // starts after it ends
    assert!(TypeDef::new(&db, 0).unwrap().methods().is_err());
    // ends at no row
    assert!(TypeDef::new(&db, 1).unwrap().rows().list(4, TableKind::Field).is_err());
    // starts past the end of the child table
    assert!(TypeDef::new(&db, 2).unwrap().methods().is_err());
    // starts at no row
    assert!(TypeDef::new(&db, 2).unwrap().rows().list(4, TableKind::Field).is_err());
    // no such column
    assert!(TypeDef::new(&db, 0).unwrap().rows().list(6, TableKind::Field).is_err());
}

#[test]
fn coded_indices_round_trip_in_a_database() {
    let db: Database = sample();
    for row in 0..8 {
        let t: TypeDef = TypeDef::new(&db, row).unwrap();
        let raw: u64 = TypeDefOrRef::TypeDef(t).encode();
        assert_eq!(raw, ((row as u64 + 1) << 2));
        match TypeDefOrRef::decode(&db, raw as u32).unwrap() {
            Some(TypeDefOrRef::TypeDef(found)) => assert_eq!(found.rows().first(), row),
            _ => panic!("a type was expected"),
        }
        let raw: u64 = HasCustomAttribute::TypeDef(t).encode();
        assert_eq!(raw, ((row as u64 + 1) << 5) | 3);
        match HasCustomAttribute::decode(&db, raw as u32).unwrap() {
            Some(HasCustomAttribute::TypeDef(found)) => assert_eq!(found.rows().first(), row),
            _ => panic!("a type was expected"),
        }
        let raw: u64 = MemberRefParent::TypeDef(t).encode();
        assert_eq!(raw, (row as u64 + 1) << 3);
    }
    let m: MethodDef = MethodDef::new(&db, 6).unwrap();
    let raw: u64 = CustomAttributeType::MethodDef(m).encode();
    assert_eq!(raw, 58);
    match CustomAttributeType::decode(&db, 58).unwrap() {
        Some(CustomAttributeType::MethodDef(found)) => assert_eq!(found.rows().first(), 6),
        _ => panic!("a method was expected"),
    }
    // the row lies past the end of its table
    assert!(TypeDefOrRef::decode(&db, (9 << 2) | 0).is_err());
    assert!(TypeDefOrRef::decode(&db, (1 << 2) | 2).is_err());
    // the tag names no candidate
    assert!(TypeDefOrRef::decode(&db, (1 << 2) | 3).is_err());
    assert!(CustomAttributeType::decode(&db, (1 << 3) | 0).is_err());
    assert!(CustomAttributeType::decode(&db, (1 << 3) | 4).is_err());
    assert!(CustomAttributeType::decode(&db, (1 << 3) | 5).is_err());
    assert!(HasCustomAttribute::decode(&db, (1 << 5) | 22).is_err());
    // the null reference
    assert!(TypeDefOrRef::decode(&db, 0).unwrap().is_none());
    assert!(TypeDefOrRef::decode(&db, 1).unwrap().is_none());
    assert!(db.resolve(CodedIndex::ResolutionScope, 0).unwrap().is_none());
    let found: Rows = db.resolve(CodedIndex::HasCustomAttribute, (3 << 5) | 6).unwrap().unwrap();
    assert_eq!((found.table(), found.first(), found.last()), (TableKind::MemberRef, 2, 3));
}

#[test]
fn categories_follow_flags_and_base_names() {
    let db: Database = sample();
    let expected: [(&str, Category); 8] = [
        ("ITypeAttribute", Category::Interface),
        ("TypeAttribute", Category::Attribute),
        ("TypeStruct", Category::Struct),
        ("TypeEnum", Category::Enum),
        ("TypeDelegate", Category::Delegate),
        ("TypeClass", Category::Class),
        ("Derived", Category::Class),
        ("IMarked", Category::Interface),
    ];
    for (name, category) in expected {
        let t: TypeDef = db.find("Test", name).unwrap();
        assert_eq!(t.category().unwrap(), category);
    }
    // an interface whatever it extends
    let marked: TypeDef = db.find("Test", "IMarked").unwrap();
    assert!(marked.flags().unwrap().interface());
    match marked.extends().unwrap() {
        Some(TypeDefOrRef::TypeRef(base)) => {
            assert_eq!(base.name().unwrap(), "Enum");
            assert_eq!(base.namespace().unwrap(), "System");
        },
        _ => panic!("a type reference was expected"),
    }
    let plain: TypeDef = db.find("Test", "ITypeAttribute").unwrap();
    assert!(plain.extends().unwrap().is_none());
    assert_eq!(plain.flags().unwrap().0, 0xA0);
    let derived: TypeDef = db.find("Test", "Derived").unwrap();
    match derived.extends().unwrap() {
        Some(base) => {
            assert_eq!(base.name().unwrap(), "TypeClass");
            assert_eq!(base.namespace().unwrap(), "Test");
        },
        None => panic!("a base type was expected"),
    }
}

#[test]
fn a_type_that_extends_nothing_has_no_category() {
    let mut image: Image = Image::new();
    let name: u32 = image.text("<Module>");
    image.table(TableKind::TypeDef, &[4, 2, 2, 2, 2, 2], &[vec![0, name, 0, 0, 1, 1], vec![0, name, 0, (1 << 2) | 2, 1, 1]]);
    image.table(TableKind::TypeSpec, &[2], &[vec![0]]);
    let db: Database = Database::open(image.build()).unwrap();
    assert!(matches!(TypeDef::new(&db, 0).unwrap().category(), Err(Error::InvalidData(_))));
    // a base type given by signature has no name
    let by_signature: TypeDef = TypeDef::new(&db, 1).unwrap();
    assert!(matches!(by_signature.extends(), Ok(Some(TypeDefOrRef::TypeSpec(_)))));
    assert!(by_signature.category().is_err());
}

#[test]
fn methods_know_their_owner() {
    let db: Database = sample();
    let owners: [u32; 7] = [0, 0, 1, 4, 5, 5, 7];
    for row in 0..7 {
        let method: MethodDef = MethodDef::new(&db, row).unwrap();
        assert_eq!(method.parent().unwrap().rows().first(), owners[row as usize]);
        assert_eq!(method.parent().unwrap().rows().len(), 1);
    }
    for row in 0..8 {
        let owner: TypeDef = TypeDef::new(&db, row).unwrap();
        let mut methods: MethodDef = owner.methods().unwrap();
        while let Some(method) = methods.next() {
            let parent: TypeDef = method.parent().unwrap();
            assert_eq!(parent.name().unwrap(), owner.name().unwrap());
            assert_eq!(parent.namespace().unwrap(), owner.namespace().unwrap());
            assert_eq!(parent.rows().first(), row);
        }
    }
    let names: Vec<&str> = (0..7).map(|row| MethodDef::new(&db, row).unwrap().name().unwrap()).collect();
    assert_eq!(names, ["Get", "Set", ".ctor", "Invoke", "Run", "Stop", "Mark"]);
    // an empty view at the end of the table stands for no method
    assert!(MethodDef::rest(&db, 7).unwrap().parent().is_err());
}

#[test]
fn a_method_before_every_list_has_no_owner() {
    let mut image: Image = Image::new();
    let name: u32 = image.text("T");
    image.table(TableKind::TypeDef, &[4, 2, 2, 2, 2, 2], &[vec![0, name, 0, 0, 1, 2]]);
    image.table(
        TableKind::MethodDef,
        &[4, 2, 2, 2, 2, 2],
        &[vec![0, 0, 0, name, 0, 1], vec![0, 0, 0, name, 0, 1]],
    );
    let db: Database = Database::open(image.build()).unwrap();
    assert!(MethodDef::new(&db, 0).unwrap().parent().is_err());
    assert_eq!(MethodDef::new(&db, 1).unwrap().parent().unwrap().rows().first(), 0);
}

#[test]
fn types_are_found_by_name() {
    let db: Database = sample();
    let found: TypeDef = db.find("Test", "TypeEnum").unwrap();
    assert_eq!(found.rows().first(), 3);
    assert_eq!(found.rows().last(), 4);
    assert_eq!(found.name().unwrap(), "TypeEnum");
    assert_eq!(found.namespace().unwrap(), "Test");
    assert!(db.find("Test", "Missing").is_none());
    assert!(db.find("System", "TypeEnum").is_none());
    assert!(db.find("Test", "TypeEnu").is_none());
    assert!(db.find("Test", "TypeEnums").is_none());
    assert!(db.find("Test", "typeenum").is_none());
    assert!(db.find("", "TypeEnum").is_none());
    assert!(db.find("Test", "").is_none());
    assert_eq!(db.find_bytes(b"Test", b"IMarked").unwrap().rows().first(), 7);
    assert!(db.find_bytes(b"Test", b"IMarke").is_none());
}

#[test]
fn the_first_of_two_types_with_one_name_is_found() {
    let mut image: Image = Image::new();
    let ns: u32 = image.text("N");
    let a: u32 = image.text("A");
    let b: u32 = image.text("B");
    image.table(
        TableKind::TypeDef,
        &[4, 2, 2, 2, 2, 2],
        &[vec![0, a, ns, 0, 1, 1], vec![0, b, ns, 0, 1, 1], vec![0, b, ns, 0, 1, 1]],
    );
    let db: Database = Database::open(image.build()).unwrap();
    assert_eq!(db.find("N", "B").unwrap().rows().first(), 1);
    assert_eq!(db.find("N", "A").unwrap().rows().first(), 0);
}

#[test]
fn attributes_are_found_by_parent() {
    let db: Database = sample();
    let expected: [(u32, u32); 8] =
        [(1, 2), (2, 2), (2, 2), (2, 2), (2, 2), (2, 4), (4, 5), (5, 5)];
    for row in 0..8 {
        let found = TypeDef::new(&db, row).unwrap().attributes().unwrap();
        assert_eq!((found.rows().first(), found.rows().last()), expected[row as usize]);
    }
    let first = TypeDef::new(&db, 0).unwrap().attributes().unwrap();
    match first.parent().unwrap() {
        Some(HasCustomAttribute::TypeDef(parent)) => assert_eq!(parent.rows().first(), 0),
        _ => panic!("a type was expected"),
    }
    match first.class().unwrap() {
        Some(CustomAttributeType::MethodDef(method)) => assert_eq!(method.rows().first(), 2),
        _ => panic!("a method was expected"),
    }
    let on_method = db.table(TableKind::CustomAttribute);
    assert_eq!(on_method.u32(0).unwrap(), 32);
}

#[test]
fn attributes_are_told_by_the_owner_of_their_constructor() {
    let db: Database = sample();
    let attribute = |row: u32| winmd::CustomAttribute::new(&db, row).unwrap();
    // a method defined here
    assert!(attribute(1).has_name("Test", "TypeAttribute").unwrap());
    assert!(!attribute(1).has_name("Test", "TypeStruct").unwrap());
    assert!(!attribute(1).has_name("System", "TypeAttribute").unwrap());
    // a member of a referenced type
    assert!(attribute(3).has_name("System", "ObsoleteAttribute").unwrap());
    assert!(!attribute(3).has_name("Test", "ObsoleteAttribute").unwrap());
    assert!(!attribute(3).has_name("System", "Attribute").unwrap());
    // a member of a type defined here
    assert!(attribute(4).has_name("Test", "TypeAttribute").unwrap());
    assert!(!attribute(4).has_name("Test", "Derived").unwrap());
    // a member of a method: no type at all
    assert!(!attribute(2).has_name("Test", "ITypeAttribute").unwrap());
    assert!(!attribute(2).has_name("", "").unwrap());

    let class: TypeDef = db.find("Test", "TypeClass").unwrap();
    assert!(class.find_attribute("Test", "TypeAttribute").is_err());
    assert!(db.find("Test", "TypeStruct").unwrap().find_attribute("Test", "TypeAttribute").is_err());
    let derived: TypeDef = db.find("Test", "Derived").unwrap();
    assert_eq!(derived.find_attribute("Test", "TypeAttribute").unwrap().rows().first(), 4);
}

#[test]
fn member_references_name_their_parent() {
    let db: Database = sample();
    let member = |row: u32| winmd::MemberRef::new(&db, row).unwrap();
    assert_eq!(member(0).name().unwrap(), ".ctor");
    match member(0).class().unwrap() {
        Some(MemberRefParent::TypeRef(parent)) => {
            assert_eq!(parent.rows().first(), 5);
            assert_eq!(parent.name().unwrap(), "ObsoleteAttribute");
        },
        _ => panic!("a type reference was expected"),
    }
    assert!(matches!(member(1).class().unwrap(), Some(MemberRefParent::TypeDef(_))));
    assert!(matches!(member(2).class().unwrap(), Some(MemberRefParent::MethodDef(_))));
}

#[test]
fn cells_are_read_by_row_and_column() {
    let db: Database = sample();
    assert_eq!(db.u32(TableKind::TypeDef, 0, 0).unwrap(), 0xA0);
    assert_eq!(db.u32(TableKind::TypeDef, 1, 3).unwrap(), 5);
    assert_eq!(db.u32(TableKind::TypeDef, 7, 5).unwrap(), 7);
    assert_eq!(db.u32(TableKind::MethodDef, 2, 2).unwrap(), 0x800);
    assert_eq!(db.u32(TableKind::CustomAttribute, 4, 0).unwrap(), 227);
    assert!(matches!(db.u32(TableKind::TypeDef, 8, 0), Err(Error::InvalidData(_))));
    assert!(db.u32(TableKind::TypeDef, 0, 6).is_err());
    assert!(db.u32(TableKind::Field, 0, 0).is_err());
    assert_eq!(db.str(TableKind::TypeDef, 5, 1).unwrap(), "TypeClass");
    assert_eq!(db.str(TableKind::TypeRef, 3, 1).unwrap(), "MulticastDelegate");
    assert!(db.str(TableKind::TypeRef, 6, 1).is_err());
    assert_eq!(db.run(TableKind::TypeRef, 3, 2).unwrap(), b"System");
    assert_eq!(db.blob(TableKind::MemberRef, 0, 2).unwrap(), [0x20, 0x01, 0x01, 0x0E]);
    assert_eq!(db.blob(TableKind::CustomAttribute, 0, 2).unwrap(), [0x01, 0x00, 0x00, 0x00]);
    assert!(db.blob(TableKind::CustomAttribute, 5, 2).is_err());
    assert!(winmd::MethodAttributes(db.u32(TableKind::MethodDef, 2, 2).unwrap()).special());
}

#[test]
fn searches_find_the_bounds_of_a_value() {
    let db: Database = sample();
    let kind: TableKind = TableKind::CustomAttribute;
    // the column holds 32, 35, 195, 195, 227
    assert_eq!(db.upper_bound(kind, 0, 5, 0, 0).unwrap(), 0);
    assert_eq!(db.upper_bound(kind, 0, 5, 0, 31).unwrap(), 0);
    assert_eq!(db.upper_bound(kind, 0, 5, 0, 32).unwrap(), 1);
    assert_eq!(db.upper_bound(kind, 0, 5, 0, 195).unwrap(), 4);
    assert_eq!(db.upper_bound(kind, 0, 5, 0, 226).unwrap(), 4);
    assert_eq!(db.upper_bound(kind, 0, 5, 0, 227).unwrap(), 5);
    assert_eq!(db.upper_bound(kind, 0, 5, 0, 0xFFFF_FFFF).unwrap(), 5);
    assert_eq!(db.upper_bound(kind, 2, 4, 0, 195).unwrap(), 4);
    assert_eq!(db.upper_bound(kind, 3, 3, 0, 0).unwrap(), 3);
    assert_eq!(db.lower_bound(kind, 0, 5, 0, 195).unwrap(), 2);
    assert_eq!(db.lower_bound(kind, 0, 5, 0, 32).unwrap(), 0);
    assert_eq!(db.lower_bound(kind, 0, 5, 0, 228).unwrap(), 5);
    assert_eq!(db.equal_range(kind, 0, 5, 0, 32).unwrap(), (0, 1));
    assert_eq!(db.equal_range(kind, 0, 5, 0, 195).unwrap(), (2, 4));
    assert_eq!(db.equal_range(kind, 0, 5, 0, 227).unwrap(), (4, 5));
    assert_eq!(db.equal_range(kind, 0, 5, 0, 100).unwrap(), (2, 2));
    assert_eq!(db.equal_range(kind, 0, 5, 0, 0).unwrap(), (0, 0));
    assert_eq!(db.equal_range(kind, 0, 5, 0, 1000).unwrap(), (5, 5));
    assert_eq!(db.equal_range(kind, 3, 5, 0, 195).unwrap(), (3, 4));
    assert!(db.upper_bound(kind, 0, 6, 0, 0).is_err());
    assert!(db.upper_bound(kind, 3, 2, 0, 0).is_err());
    assert!(db.upper_bound(kind, 0, 5, 3, 0).is_err());
    assert!(db.equal_range(kind, 0, 6, 0, 0).is_err());
    assert!(db.lower_bound(kind, 0, 5, 3, 0).is_err());
}

fn sizes(rows: &[(TableKind, u32)]) -> Sizes {
    let mut counts: Vec<u32> = vec![0; 45];
    for (kind, count) in rows {
        counts[kind.index()] = *count;
    }
    Sizes { rows: counts, wide_strings: false, wide_guids: false, wide_blobs: false }
}

#[test]
fn a_database_is_made_of_plain_parts() {
    // two rows of the `ModuleRef` table: one column, an offset into the
    // string heap; then the heap
    let bytes: Vec<u8> = vec![0xAA, 0x01, 0x00, 0x03, 0x00, 0x00, b'a', 0x00, b'b', b'c', 0x00];
    let none: Region = Region { offset: 0, len: 0 };
    let strings: Region = Region { offset: 5, len: 6 };
    let db: Database =
        Database::new(bytes.clone(), sizes(&[(TableKind::ModuleRef, 2)]), 1, strings, none, none).unwrap();
    assert_eq!(db.row_count(TableKind::ModuleRef), 2);
    assert_eq!(db.u32(TableKind::ModuleRef, 0, 0).unwrap(), 1);
    assert_eq!(db.u32(TableKind::ModuleRef, 1, 0).unwrap(), 3);
    assert_eq!(db.str(TableKind::ModuleRef, 0, 0).unwrap(), "a");
    assert_eq!(db.str(TableKind::ModuleRef, 1, 0).unwrap(), "bc");
    assert!(db.blob(TableKind::ModuleRef, 0, 0).is_err());

    // the rows end outside the buffer
    assert!(Database::new(bytes.clone(), sizes(&[(TableKind::ModuleRef, 6)]), 1, strings, none, none).is_err());
    assert!(Database::new(bytes.clone(), sizes(&[(TableKind::ModuleRef, 5)]), 1, strings, none, none).is_ok());
    assert!(Database::new(bytes.clone(), sizes(&[]), 12, strings, none, none).is_err());
    assert!(Database::new(bytes.clone(), sizes(&[]), 11, strings, none, none).is_ok());
    // a heap ends outside the buffer
    let long: Region = Region { offset: 5, len: 7 };
    assert!(Database::new(bytes.clone(), sizes(&[]), 0, long, none, none).is_err());
    assert!(Database::new(bytes.clone(), sizes(&[]), 0, none, long, none).is_err());
    assert!(Database::new(bytes.clone(), sizes(&[]), 0, none, none, long).is_err());
    let far: Region = Region { offset: usize::MAX, len: 2 };
    assert!(Database::new(bytes.clone(), sizes(&[]), 0, far, none, none).is_err());
    // row counts for table numbers that name no table
    let mut odd: Sizes = sizes(&[]);
    odd.rows[3] = 1;
    assert!(Database::new(bytes.clone(), odd, 0, none, none, none).is_err());
    let mut short: Sizes = sizes(&[]);
    short.rows.pop();
    assert!(Database::new(bytes.clone(), short, 0, none, none, none).is_err());
}

#[test]
fn index_columns_widen_with_the_row_counts() {
    let small: Sizes = sizes(&[(TableKind::Field, 65535), (TableKind::TypeDef, 16383)]);
    let (columns, width) = small.spans(TableKind::TypeDef);
    let shape: Vec<(u32, u32)> = columns.iter().map(|c| (c.offset, c.width)).collect();
    assert_eq!(shape, [(0, 4), (4, 2), (6, 2), (8, 2), (10, 2), (12, 2)]);
    assert_eq!(width, 14);

    let wide: Sizes = sizes(&[(TableKind::Field, 65536), (TableKind::TypeDef, 16384)]);
    let (columns, width) = wide.spans(TableKind::TypeDef);
    let shape: Vec<(u32, u32)> = columns.iter().map(|c| (c.offset, c.width)).collect();
    assert_eq!(shape, [(0, 4), (4, 2), (6, 2), (8, 4), (12, 4), (16, 2)]);
    assert_eq!(width, 18);

    assert_eq!(small.coded_width(CodedIndex::TypeDefOrRef), 2);
    assert_eq!(wide.coded_width(CodedIndex::TypeDefOrRef), 4);
    // five tag bits leave eleven for the row
    assert_eq!(sizes(&[(TableKind::Module, 2047)]).coded_width(CodedIndex::HasCustomAttribute), 2);
    assert_eq!(sizes(&[(TableKind::Module, 2048)]).coded_width(CodedIndex::HasCustomAttribute), 4);
    assert_eq!(sizes(&[(TableKind::MethodSpec, 2048)]).coded_width(CodedIndex::HasCustomAttribute), 4);
    // three tag bits, of which only two tables count
    assert_eq!(sizes(&[(TableKind::MemberRef, 8191)]).coded_width(CodedIndex::CustomAttributeType), 2);
    assert_eq!(sizes(&[(TableKind::MemberRef, 8192)]).coded_width(CodedIndex::CustomAttributeType), 4);
    assert_eq!(sizes(&[(TableKind::TypeDef, 70000)]).coded_width(CodedIndex::CustomAttributeType), 2);
    // one tag bit
    assert_eq!(sizes(&[(TableKind::Event, 32767)]).coded_width(CodedIndex::HasSemantics), 2);
    assert_eq!(sizes(&[(TableKind::Event, 32768)]).coded_width(CodedIndex::HasSemantics), 4);

    let mut heaps: Sizes = sizes(&[]);
    heaps.wide_strings = true;
    heaps.wide_blobs = true;
    let (columns, width) = heaps.spans(TableKind::Assembly);
    let shape: Vec<(u32, u32)> = columns.iter().map(|c| (c.offset, c.width)).collect();
    assert_eq!(
        shape,
        [(0, 4), (4, 2), (6, 2), (8, 2), (10, 2), (12, 4), (16, 4), (20, 4), (24, 4)]
    );
    assert_eq!(width, 28);
    heaps.wide_guids = true;
    assert_eq!(heaps.spans(TableKind::Module).1, 2 + 4 + 4 + 4 + 4);
}

#[test]
fn tables_follow_one_another() {
    let counts: Sizes = sizes(&[(TableKind::Module, 1), (TableKind::TypeRef, 3), (TableKind::TypeDef, 2)]);
    let tables = counts.layout(100, 1000).unwrap();
    assert_eq!(tables.len(), 45);
    assert_eq!((tables[0].data, tables[0].rows, tables[0].row_width), (100, 1, 10));
    assert_eq!((tables[1].data, tables[1].rows, tables[1].row_width), (110, 3, 6));
    assert_eq!((tables[2].data, tables[2].rows, tables[2].row_width), (128, 2, 14));
    assert_eq!(tables[4].data, 156);
    assert_eq!(tables[44].data, 156);
    assert!(counts.layout(100, 156).is_some());
    assert!(counts.layout(100, 155).is_none());
    assert!(counts.layout(1001, 1000).is_none());
}

#[test]
fn wide_tables_are_read_with_wide_indices() {
    // 65536 rows of `Param` make the list column of `MethodDef` four bytes
    let mut image: Image = Image::new();
    let name: u32 = image.text("M");
    image.table(TableKind::MethodDef, &[4, 2, 2, 2, 2, 4], &[vec![0, 0, 0, name, 0, 65536], vec![0, 0, 0, name, 0, 65537]]);
    let params: Vec<Vec<u32>> = (0..65536).map(|i| vec![0, i as u32 & 0xFFFF, name]).collect();
    image.table(TableKind::Param, &[2, 2, 2], &params);
    let db: Database = Database::open(image.build()).unwrap();
    assert_eq!(db.row_count(TableKind::Param), 65536);
    assert_eq!(db.u32(TableKind::MethodDef, 0, 5).unwrap(), 65536);
    assert_eq!(db.u32(TableKind::MethodDef, 1, 5).unwrap(), 65537);
    assert_eq!(db.u32(TableKind::MethodDef, 1, 3).unwrap(), name);
    assert_eq!(db.u32(TableKind::Param, 65535, 1).unwrap(), 65535);
    let list: Rows = db.table(TableKind::MethodDef).list(5, TableKind::Param).unwrap();
    assert_eq!((list.first(), list.last()), (65535, 65536));
    let last: Rows = Rows::new(&db, TableKind::MethodDef, 1).unwrap().list(5, TableKind::Param).unwrap();
    assert_eq!((last.first(), last.last()), (65536, 65536));
}

#[test]
fn heap_flags_widen_heap_columns() {
    let mut image: Image = Image::new();
    let name: u32 = image.text("R");
    image.table(TableKind::ModuleRef, &[4], &[vec![name], vec![0]]);
    let mut bytes: Vec<u8> = image.build();
    let plain: Vec<u8> = image.stream(0);
    let wide: Vec<u8> = image.stream(1);
    let at: usize = bytes.windows(plain.len()).position(|window| window == plain).unwrap();
    bytes[at..at + wide.len()].copy_from_slice(&wide);
    let db: Database = Database::open(bytes).unwrap();
    assert_eq!(db.str(TableKind::ModuleRef, 0, 0).unwrap(), "R");
    assert_eq!(db.str(TableKind::ModuleRef, 1, 0).unwrap(), "");
}

#[test]
fn buffers_that_are_no_metadata_do_not_open() {
    let good: Vec<u8> = sample_image().build();
    assert!(Database::open(good.clone()).is_ok());
    assert!(matches!(Database::open(Vec::new()), Err(Error::InvalidData(_))));
    assert!(Database::open(good[..19].to_vec()).is_err());
    // the signature
    let mut bad: Vec<u8> = good.clone();
    bad[0] = 0x43;
    assert!(Database::open(bad).is_err());
    // the version string runs past the end
    let mut bad: Vec<u8> = good.clone();
    bad[14] = 0x10;
    assert!(Database::open(bad).is_err());
    // the directory is cut short
    assert!(Database::open(good[..40].to_vec()).is_err());
    // no table stream
    let mut bad: Vec<u8> = good.clone();
    bad[32 + 8 + 1] = b'-';
    assert!(Database::open(bad).is_err());
    // the last heap is cut short
    let mut image: Image = Image::new();
    image.table(TableKind::ModuleRef, &[2], &[vec![0], vec![0]]);
    let whole: Vec<u8> = image.build();
    assert!(Database::open(whole.clone()).is_ok());
    assert!(Database::open(whole[..whole.len() - 1].to_vec()).is_err());
}

#[test]
fn a_header_that_marks_an_unknown_table_does_not_open() {
    let good: Vec<u8> = sample_image().build();
    let stream: Vec<u8> = sample_image().stream(0);
    let at: usize = good.windows(stream.len()).position(|window| window == stream).unwrap();
    for bit in [3usize, 5, 7, 0x13, 0x16, 0x1E, 0x1F, 0x2D, 63] {
        let mut bad: Vec<u8> = good.clone();
        bad[at + 8 + bit / 8] |= 1 << (bit % 8);
        assert!(Database::open(bad).is_err());
    }
    // a table that the format has, with a count that the buffer cannot hold
    let mut bad: Vec<u8> = good.clone();
    bad[at + 8] |= 1;
    assert!(Database::open(bad).is_err());
}

#[test]
fn the_rows_of_a_table_that_does_not_fit_do_not_open() {
    let mut image: Image = Image::new();
    image.table(TableKind::ModuleRef, &[2], &[vec![0], vec![0]]);
    let good: Vec<u8> = image.build();
    let stream: Vec<u8> = image.stream(0);
    let at: usize = good.windows(stream.len()).position(|window| window == stream).unwrap();
    let mut bad: Vec<u8> = good.clone();
    // the row count of `ModuleRef`
    bad[at + 24 + 2] = 0x10;
    assert!(Database::open(bad).is_err());
    let mut fine: Vec<u8> = good.clone();
    fine[at + 24] = 3;
    let db: Database = Database::open(fine).unwrap();
    assert_eq!(db.row_count(TableKind::ModuleRef), 3);
}

fn with_attribute(sig: &[u8], value: &[u8]) -> Vec<u8> {
    let mut image: Image = Image::new();
    let test: u32 = image.text("Test");
    let name: u32 = image.text("Mark");
    let other: u32 = image.text("Other");
    let sig: u32 = image.blob(sig);
    let value: u32 = image.blob(value);
    image.table(
        TableKind::TypeDef,
        &[4, 2, 2, 2, 2, 2],
        &[vec![0, name, test, 0, 1, 1], vec![0, other, 0, 0, 1, 2]],
    );
    image.table(TableKind::MethodDef, &[4, 2, 2, 2, 2, 2], &[vec![0, 0, 0, name, sig, 1]]);
    image.table(TableKind::CustomAttribute, &[2, 2, 2], &[vec![on_type(1), by_method(0), value]]);
    image.build()
}

fn decoded(sig: &[u8], value: &[u8]) -> Result<Vec<(String, String)>, Error> {
    let db: Database = Database::open(with_attribute(sig, value))?;
    let attribute = winmd::CustomAttribute::new(&db, 0)?;
    let mut out: Vec<(String, String)> = Vec::new();
    for (name, argument) in attribute.arguments()? {
        let shown: String = match argument {
            ArgumentSig::Bool(value) => format!("bool {}", value),
            ArgumentSig::I32(value) => format!("i32 {}", value),
            ArgumentSig::String(text) => format!("string {}", text),
            ArgumentSig::Type(found) => format!("type {}", found.rows().first()),
        };
        out.push((name.to_string(), shown));
    }
    Ok(out)
}

fn shown(pairs: &[(&str, &str)]) -> Vec<(String, String)> {
    pairs.iter().map(|pair| (pair.0.to_string(), pair.1.to_string())).collect()
}

#[test]
fn positional_arguments_follow_the_signature() {
    let sig: [u8; 11] = [0x20, 0x05, 0x01, 0x02, 0x08, 0x0E, 0x11, 0x09, 0x12, 0x81, 0x05];
    let mut value: Vec<u8> = vec![0x01, 0x00];
    value.push(1);
    value.extend_from_slice(&[0xFE, 0xFF, 0xFF, 0xFF]);
    value.extend_from_slice(&counted("né"));
    value.extend_from_slice(&[0x00, 0x00, 0x00, 0x80]);
    value.extend_from_slice(&counted("Other"));
    value.extend_from_slice(&[0x01, 0x00]);
    value.extend_from_slice(&named(0x02, "Flag", &[7]));
    assert_eq!(
        decoded(&sig, &value).unwrap(),
        shown(&[
            ("", "bool true"),
            ("", "i32 -2"),
            ("", "string né"),
            ("", "i32 -2147483648"),
            ("", "type 1"),
            ("Flag", "bool true"),
        ])
    );
    // bytes after the last argument are not looked at
    value.push(0xFF);
    assert_eq!(decoded(&sig, &value).unwrap().len(), 6);
}

#[test]
fn values_without_arguments_decode_to_nothing() {
    assert_eq!(decoded(&[0x20, 0x00, 0x01], &[0x01, 0x00, 0x00, 0x00]).unwrap(), shown(&[]));
}

#[test]
fn malformed_attribute_values_fail() {
    let none: [u8; 3] = [0x20, 0x00, 0x01];
    let bad = |sig: &[u8], value: &[u8]| matches!(decoded(sig, value), Err(Error::InvalidData(_)));
    // the prolog
    assert!(bad(&none, &[0x02, 0x00, 0x00, 0x00]));
    assert!(bad(&none, &[0x01]));
    assert!(bad(&none, &[]));
    // the count of named arguments is cut short
    assert!(bad(&none, &[0x01, 0x00, 0x00]));
    assert!(bad(&none, &[0x01, 0x00]));
    // fewer named arguments than counted
    assert!(bad(&none, &[0x01, 0x00, 0x01, 0x00]));
    // neither field nor property
    assert!(bad(&none, &[0x01, 0x00, 0x01, 0x00, 0x52, 0x02, 0x01, b'a', 0x00]));
    // an element type that is not decoded
    assert!(bad(&none, &[0x01, 0x00, 0x01, 0x00, 0x53, 0x09, 0x01, b'a', 0x00, 0x00, 0x00, 0x00]));
    assert!(bad(&none, &[0x01, 0x00, 0x01, 0x00, 0x53, 0x51, 0x01, b'a', 0x00]));
    // a value that is cut short
    assert!(bad(&none, &[0x01, 0x00, 0x01, 0x00, 0x53, 0x02, 0x01, b'a']));
    assert!(bad(&none, &[0x01, 0x00, 0x01, 0x00, 0x53, 0x08, 0x01, b'a', 0x00, 0x00, 0x00]));
    assert!(bad(&none, &[0x01, 0x00, 0x01, 0x00, 0x53, 0x0E, 0x01, b'a', 0x03, b'a', b'b']));
    // a name that is cut short, or is not UTF-8
    assert!(bad(&none, &[0x01, 0x00, 0x01, 0x00, 0x53, 0x02, 0x05, b'a', 0x00]));
    assert!(bad(&none, &[0x01, 0x00, 0x01, 0x00, 0x53, 0x02, 0x01, 0xFF, 0x00]));
    assert!(bad(&none, &[0x01, 0x00, 0x01, 0x00, 0x53, 0x0E, 0x01, b'a', 0x01, 0xC0]));
    // a null string, which has no length
    assert!(bad(&none, &[0x01, 0x00, 0x01, 0x00, 0x53, 0x0E, 0x01, b'a', 0xFF]));
    // a type that the database does not have
    let mut value: Vec<u8> = vec![0x01, 0x00, 0x01, 0x00];
    value.extend_from_slice(&named(0x50, "T", &counted("Test.Missing")));
    assert!(bad(&none, &value));
    let mut value: Vec<u8> = vec![0x01, 0x00, 0x01, 0x00];
    value.extend_from_slice(&named(0x50, "T", &counted("Mark")));
    assert!(bad(&none, &value));
    let mut value: Vec<u8> = vec![0x01, 0x00, 0x01, 0x00];
    value.extend_from_slice(&named(0x50, "T", &counted("Test.Mark")));
    assert_eq!(decoded(&none, &value).unwrap(), shown(&[("T", "type 0")]));
    let mut value: Vec<u8> = vec![0x01, 0x00, 0x01, 0x00];
    value.extend_from_slice(&named(0x50, "T", &counted("Other")));
    assert_eq!(decoded(&none, &value).unwrap(), shown(&[("T", "type 1")]));
    // an enum whose type name is cut short
    assert!(bad(&none, &[0x01, 0x00, 0x01, 0x00, 0x53, 0x55, 0x09, b'E']));
}

#[test]
fn malformed_signatures_fail() {
    let plain: [u8; 4] = [0x01, 0x00, 0x00, 0x00];
    let bad = |sig: &[u8], value: &[u8]| matches!(decoded(sig, value), Err(Error::InvalidData(_)));
    assert!(bad(&[], &plain));
    assert!(bad(&[0x00, 0x00, 0x01], &plain));
    assert!(bad(&[0x20], &plain));
    assert!(bad(&[0x20, 0x00], &plain));
    assert!(bad(&[0x20, 0x00, 0x08], &plain));
    assert!(bad(&[0x20, 0xE0, 0x01], &plain));
    // more parameters than types
    assert!(bad(&[0x20, 0x01, 0x01], &[0x01, 0x00, 0x00, 0x00, 0x00]));
    // a parameter type that is not decoded
    assert!(bad(&[0x20, 0x01, 0x01, 0x0A], &[0x01, 0x00, 0, 0, 0, 0, 0, 0, 0, 0, 0x00, 0x00]));
    // a token that is cut short
    assert!(bad(&[0x20, 0x01, 0x01, 0x11], &[0x01, 0x00, 0, 0, 0, 0, 0x00, 0x00]));
    assert!(bad(&[0x20, 0x01, 0x01, 0x12, 0x80], &[0x01, 0x00, 0x00, 0x00, 0x00]));
    // a positional value that is cut short
    assert!(bad(&[0x20, 0x01, 0x01, 0x08], &[0x01, 0x00, 0x00, 0x00, 0x00]));
}

#[test]
fn an_attribute_without_constructor_has_no_arguments() {
    let mut image: Image = Image::new();
    let value: u32 = image.blob(&[0x01, 0x00, 0x00, 0x00]);
    image.table(
        TableKind::CustomAttribute,
        &[2, 2, 2],
        &[vec![0, 0, value], vec![0, (1 << 3) | 2, value], vec![0, (1 << 3) | 1, value]],
    );
    let db: Database = Database::open(image.build()).unwrap();
    let attribute = |row: u32| winmd::CustomAttribute::new(&db, row).unwrap();
    assert!(attribute(0).class().unwrap().is_none());
    assert!(attribute(0).parent().unwrap().is_none());
    assert!(attribute(0).arguments().is_err());
    assert!(!attribute(0).has_name("Test", "Mark").unwrap());
    // a constructor that the database does not have
    assert!(attribute(1).class().is_err());
    assert!(attribute(1).arguments().is_err());
    assert!(attribute(1).has_name("Test", "Mark").is_err());
    // a tag that the format reserves
    assert!(attribute(2).class().is_err());
}
