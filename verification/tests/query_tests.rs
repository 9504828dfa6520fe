use hiqlite::query::column::{mapping_cols_from_stmt, ColumnType};
use hiqlite::query::vec_text::VecText;

#[test]
fn vec_text() {
    // make sure conversions work as expected with the generic args

    let values = vec![
        "Entry 1".to_string(),
        "Entry 2".to_string(),
        "And another one".to_string(),
    ];
    let v: VecText<10> = VecText::new(&values).unwrap();
    // `parse()` will work here as well instead of `try_into_vec()`.
    // The different impls just provide more flexibility.
    let r = v.try_into_vec::<String>().unwrap();
    assert_eq!(values, r);

    let v: VecText<44> = VecText::new(&[1, 2, -3]).unwrap();
    let r = v.parse::<i32>().unwrap();
    assert_eq!(&[1, 2, -3], r.as_slice());

    let v: VecText<59> = VecText::new(&[1, 2, 13]).unwrap();
    let r = v.parse::<u8>().unwrap();
    assert_eq!(&[1, 2, 13], r.as_slice());
}

#[test]
fn vec_text_writes_separated_values() {
    let v: VecText<44> = VecText::new(&[1i64, -20, 300]).unwrap();
    assert_eq!(v.into_text(), "1,-20,300");
    let empty: VecText<44> = VecText::new::<i64>(&[]).unwrap();
    assert!(empty.is_empty());
    assert_eq!(empty.parse::<i64>().unwrap(), Vec::<i64>::new());
}

#[test]
fn vec_text_reads_column_text() {
    let v: VecText<59> = VecText::from_column(Some("7;8;;9;".to_string()));
    assert_eq!(v.parse::<u16>().unwrap(), vec![7, 8, 9]);
    assert_eq!(v.values(), vec!["7", "8", "", "9", ""]);
    let none: VecText<59> = VecText::from_column(None);
    assert!(none.is_empty());
    assert!(none.try_into_vec_opt::<u16>().unwrap().is_none());
}

#[test]
fn vec_text_rejects_values_out_of_range() {
    let v: VecText<44> = VecText::from_column(Some("1,300".to_string()));
    assert!(v.parse::<u8>().is_err());
    let results = v.iter_as::<u8>();
    assert_eq!(results.len(), 2);
    assert_eq!(*results[0].as_ref().unwrap(), 1u8);
    assert!(results[1].is_err());
    let w: VecText<44> = VecText::from_column(Some("-1".to_string()));
    assert!(w.parse::<u32>().is_err());
    assert_eq!(w.parse::<i32>().unwrap(), vec![-1]);
}

#[test]
fn vec_text_invalid_separator_code() {
    let r: Result<VecText<0xD800>, _> = VecText::new(&[1i32]);
    assert!(r.is_err());
    let ok: Result<VecText<0xD800>, _> = VecText::new::<i32>(&[]);
    assert!(ok.is_ok());
}

#[test]
fn column_type_from_declared_types() {
    assert_eq!(ColumnType::decl_type_class(None), Some(ColumnType::Expr));
    assert_eq!(ColumnType::decl_type_class(Some("INTEGER")), Some(ColumnType::Integer));
    assert_eq!(ColumnType::decl_type_class(Some("INT8")), Some(ColumnType::Integer));
    assert_eq!(ColumnType::decl_type_class(Some("TEXT")), Some(ColumnType::Text));
    assert_eq!(ColumnType::decl_type_class(Some("BLOB")), Some(ColumnType::Blob));
    assert_eq!(ColumnType::decl_type_class(Some("REAL")), Some(ColumnType::Real));
    assert_eq!(ColumnType::decl_type_class(Some("")), Some(ColumnType::Blob));
    assert_eq!(ColumnType::decl_type_class(Some("bigint")), Some(ColumnType::Integer));
    assert_eq!(ColumnType::decl_type_class(Some("UNSIGNED BIG INT")), Some(ColumnType::Integer));
    assert_eq!(ColumnType::decl_type_class(Some("varchar(255)")), Some(ColumnType::Text));
    assert_eq!(ColumnType::decl_type_class(Some("clob")), Some(ColumnType::Text));
    assert_eq!(ColumnType::decl_type_class(Some("double precision")), Some(ColumnType::Real));
    assert_eq!(ColumnType::decl_type_class(Some("Float")), Some(ColumnType::Real));
    assert_eq!(ColumnType::decl_type_class(Some("text")), None);
    assert_eq!(ColumnType::decl_type_class(Some("NUMERIC")), None);
    assert_eq!(ColumnType::from_decl_type(Some("nchar(55)")), ColumnType::Text);
}

#[test]
fn column_infos_from_statement_columns() {
    let cols = mapping_cols_from_stmt(vec![
        ("id".to_string(), Some("INTEGER".to_string())),
        ("name".to_string(), Some("VARCHAR(20)".to_string())),
        ("count(*)".to_string(), None),
    ])
    .unwrap();
    assert_eq!(cols.len(), 3);
    assert_eq!(cols[0].name, "id");
    assert_eq!(cols[0].typ, ColumnType::Integer);
    assert_eq!(cols[1].typ, ColumnType::Text);
    assert_eq!(cols[2].name, "count(*)");
    assert_eq!(cols[2].typ, ColumnType::Expr);
    assert!(mapping_cols_from_stmt(vec![("x".to_string(), Some("NUMERIC".to_string()))]).is_none());
}
