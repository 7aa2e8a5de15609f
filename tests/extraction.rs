use model_extract::classify::extract_type_info;
use model_extract::decl::{
    Decl, FieldDecl, Fields, GenericArgument, MacroDecl, PathArguments, PathSegment, StructDecl,
    TypeExpr,
};
use model_extract::derives::extract_diesel_derives;
use model_extract::extract::extract_items;
use model_extract::records::DieselTable;
use model_extract::structs::{extract_field_info, extract_struct_info};
use model_extract::table::{extract_diesel_table, parse_column_def, parse_diesel_table_tokens};

fn plain(name: &str) -> TypeExpr {
    TypeExpr::Path(vec![PathSegment { ident: name.to_string(), arguments: PathArguments::Plain }])
}

fn generic(name: &str, args: Vec<GenericArgument>) -> TypeExpr {
    TypeExpr::Path(vec![PathSegment {
        ident: name.to_string(),
        arguments: PathArguments::AngleBracketed(args),
    }])
}

fn option_of(inner: TypeExpr) -> TypeExpr {
    generic("Option", vec![GenericArgument::Type(inner)])
}

fn field(name: &str, ty: TypeExpr) -> FieldDecl {
    FieldDecl { ident: Some(name.to_string()), ty, attrs: vec![] }
}

fn strings(v: &[&str]) -> Vec<String> {
    v.iter().map(|s| s.to_string()).collect()
}

fn columns(t: &DieselTable) -> Vec<(String, String, bool)> {
    t.columns.iter().map(|c| (c.name.clone(), c.sql_type.clone(), c.is_nullable)).collect()
}

fn col(name: &str, ty: &str, nullable: bool) -> (String, String, bool) {
    (name.to_string(), ty.to_string(), nullable)
}

#[test]
fn classify_single_segment() {
    assert_eq!(extract_type_info(&plain("String")), Ok(("String".to_string(), false)));
}

#[test]
fn classify_optional_i64() {
    assert_eq!(extract_type_info(&option_of(plain("i64"))), Ok(("i64".to_string(), true)));
}

#[test]
fn classify_qualified_path() {
    let ty = TypeExpr::Path(vec![
        PathSegment { ident: "alpha".to_string(), arguments: PathArguments::Plain },
        PathSegment { ident: "Beta".to_string(), arguments: PathArguments::Plain },
    ]);
    assert_eq!(extract_type_info(&ty), Ok(("alpha::Beta".to_string(), false)));
}

#[test]
fn classify_three_segment_path() {
    let ty = TypeExpr::Path(vec![
        PathSegment { ident: "std".to_string(), arguments: PathArguments::Plain },
        PathSegment { ident: "collections".to_string(), arguments: PathArguments::Plain },
        PathSegment {
            ident: "HashMap".to_string(),
            arguments: PathArguments::AngleBracketed(vec![
                GenericArgument::Type(plain("K")),
                GenericArgument::Type(plain("V")),
            ]),
        },
    ]);
    assert_eq!(extract_type_info(&ty), Ok(("std::collections::HashMap".to_string(), false)));
}

#[test]
fn classify_optional_of_optional_collapses() {
    let ty = option_of(option_of(plain("i32")));
    assert_eq!(extract_type_info(&ty), Ok(("i32".to_string(), true)));
}

#[test]
fn classify_optional_of_array() {
    assert_eq!(extract_type_info(&option_of(TypeExpr::Array)), Ok(("Array".to_string(), true)));
}

#[test]
fn classify_option_with_two_arguments_is_not_unwrapped() {
    let ty = generic("Option", vec![GenericArgument::Type(plain("a")), GenericArgument::Type(plain("b"))]);
    assert_eq!(extract_type_info(&ty), Ok(("Option".to_string(), false)));
}

#[test]
fn classify_option_with_lifetime_argument_is_not_unwrapped() {
    let ty = generic("Option", vec![GenericArgument::Other]);
    assert_eq!(extract_type_info(&ty), Ok(("Option".to_string(), false)));
}

#[test]
fn classify_generic_non_option_keeps_ident() {
    let ty = generic("Vec", vec![GenericArgument::Type(plain("u8"))]);
    assert_eq!(extract_type_info(&ty), Ok(("Vec".to_string(), false)));
}

#[test]
fn classify_composite_labels() {
    let cases = [
        (TypeExpr::Array, "Array"),
        (TypeExpr::Slice, "Slice"),
        (TypeExpr::Ptr, "Ptr"),
        (TypeExpr::Reference, "Reference"),
        (TypeExpr::Tuple, "Tuple"),
        (TypeExpr::Other, "Unknown"),
    ];
    for (ty, label) in cases {
        assert_eq!(extract_type_info(&ty), Ok((label.to_string(), false)));
    }
}

#[test]
fn parse_widgets_table() {
    let t = parse_diesel_table_tokens("widgets (id) { id -> Int8, name -> Text, notes -> Nullable<Text> }")
        .expect("a table");
    assert_eq!(t.name, "widgets");
    assert_eq!(t.primary_key, strings(&["id"]));
    assert_eq!(
        columns(&t),
        vec![col("id", "Int8", false), col("name", "Text", false), col("notes", "Text", true)]
    );
}

#[test]
fn parse_table_from_rendered_tokens() {
    let t = parse_diesel_table_tokens(
        "  users (id , org_id) { id -> Int4 , org_id -> Int4 , email -> Nullable < Varchar > , }  ",
    )
    .expect("a table");
    assert_eq!(t.name, "users");
    assert_eq!(t.primary_key, strings(&["id", "org_id"]));
    assert_eq!(
        columns(&t),
        vec![col("id", "Int4", false), col("org_id", "Int4", false), col("email", "Varchar", true)]
    );
}

#[test]
fn parse_table_missing_close_paren_is_skipped() {
    assert!(parse_diesel_table_tokens("widgets (id { id -> Int8, name -> Text }").is_none());
}

#[test]
fn parse_table_without_whitespace_is_skipped() {
    assert!(parse_diesel_table_tokens("widgets(id){id->Int8}").is_none());
}

#[test]
fn parse_table_close_before_open_paren_is_skipped() {
    assert!(parse_diesel_table_tokens("widgets ) (id { id -> Int8 }").is_none());
}

#[test]
fn parse_table_missing_braces_is_skipped() {
    assert!(parse_diesel_table_tokens("widgets (id) id -> Int8").is_none());
    assert!(parse_diesel_table_tokens("widgets (id) { id -> Int8").is_none());
}

#[test]
fn parse_table_nullable_thing_kept_verbatim() {
    let t = parse_diesel_table_tokens("things (id) { id -> Int8, kind -> NullableThing }").expect("a table");
    assert_eq!(columns(&t), vec![col("id", "Int8", false), col("kind", "NullableThing", false)]);
}

#[test]
fn parse_table_primary_key_not_checked_against_columns() {
    let t = parse_diesel_table_tokens("t (a, , b) { c -> Text }").expect("a table");
    assert_eq!(t.primary_key, strings(&["a", "b"]));
    assert_eq!(columns(&t), vec![col("c", "Text", false)]);
}

#[test]
fn parse_table_drops_malformed_columns() {
    let t = parse_diesel_table_tokens("t (id) { id -> Int8, broken, a -> b -> c, ok -> Bool }").expect("a table");
    assert_eq!(columns(&t), vec![col("id", "Int8", false), col("ok", "Bool", false)]);
}

#[test]
fn parse_table_empty_body() {
    let t = parse_diesel_table_tokens("empty () {}").expect("a table");
    assert_eq!(t.name, "empty");
    assert!(t.primary_key.is_empty());
    assert!(t.columns.is_empty());
}

#[test]
fn parse_table_nested_nullable_uses_last_angle() {
    let t = parse_diesel_table_tokens("t (id) { tags -> Nullable<Array<Text>> }").expect("a table");
    assert_eq!(columns(&t), vec![col("tags", "Array<Text>", true)]);
}

#[test]
fn column_def_plain() {
    assert_eq!(parse_column_def("id -> Int8"), Some(("id".to_string(), "Int8".to_string(), false)));
}

#[test]
fn column_def_nullable() {
    assert_eq!(
        parse_column_def("notes -> Nullable < Text >"),
        Some(("notes".to_string(), "Text".to_string(), true))
    );
}

#[test]
fn column_def_nullable_thing() {
    assert_eq!(
        parse_column_def("kind -> NullableThing"),
        Some(("kind".to_string(), "NullableThing".to_string(), false))
    );
}

#[test]
fn column_def_nullable_without_close_angle() {
    assert_eq!(
        parse_column_def("x -> Nullable<Text"),
        Some(("x".to_string(), "Nullable<Text".to_string(), false))
    );
}

#[test]
fn column_def_close_angle_before_open_angle() {
    assert_eq!(
        parse_column_def("x -> Nullable>Text<"),
        Some(("x".to_string(), "Nullable>Text<".to_string(), false))
    );
}

#[test]
fn column_def_needs_exactly_one_arrow() {
    assert_eq!(parse_column_def("no arrow here"), None);
    assert_eq!(parse_column_def("a -> b -> c"), None);
}

#[test]
fn column_def_empty_sides() {
    assert_eq!(parse_column_def("->"), Some((String::new(), String::new(), false)));
}

#[test]
fn derives_found_in_rendered_attributes() {
    let item = StructDecl {
        ident: "User".to_string(),
        attrs: strings(&[
            "# [derive (Queryable , Identifiable , Debug)]",
            "# [table_name = \"users\"]",
            "#[derive(Insertable, AsChangeset, Associations)]",
        ]),
        fields: Fields::Unit,
    };
    let d = extract_diesel_derives(&item).expect("a derive record");
    assert_eq!(d.struct_name, "User");
    assert_eq!(
        d.derives,
        strings(&["Queryable", "Identifiable", "Insertable", "AsChangeset", "Associations"])
    );
    assert_eq!(d.associations, strings(&["users"]));
}

#[test]
fn derives_follow_checklist_order_within_one_attribute() {
    let item = StructDecl {
        ident: "Post".to_string(),
        attrs: strings(&["# [derive (Identifiable , Queryable)]"]),
        fields: Fields::Unit,
    };
    let d = extract_diesel_derives(&item).expect("a derive record");
    assert_eq!(d.derives, strings(&["Queryable", "Identifiable"]));
    assert!(d.associations.is_empty());
}

#[test]
fn derives_absent_gives_none() {
    let item = StructDecl {
        ident: "Plain".to_string(),
        attrs: strings(&["# [derive (Debug , Clone)]", "# [doc = \"Queryable\"]"]),
        fields: Fields::Unit,
    };
    assert!(extract_diesel_derives(&item).is_none());
}

#[test]
fn derives_table_name_only() {
    let item = StructDecl {
        ident: "Row".to_string(),
        attrs: strings(&["# [table_name = \"rows\"]", "# [table_name]"]),
        fields: Fields::Unit,
    };
    let d = extract_diesel_derives(&item).expect("a derive record");
    assert!(d.derives.is_empty());
    assert_eq!(d.associations, strings(&["rows"]));
}

#[test]
fn struct_with_named_fields() {
    let item = StructDecl {
        ident: "Order".to_string(),
        attrs: strings(&["# [derive (Queryable)]"]),
        fields: Fields::Named(vec![
            FieldDecl { ident: Some("id".to_string()), ty: plain("i32"), attrs: strings(&["# [serde (rename = \"ID\")]"]) },
            field("note", option_of(plain("String"))),
            field("when", TypeExpr::Path(vec![
                PathSegment { ident: "chrono".to_string(), arguments: PathArguments::Plain },
                PathSegment { ident: "NaiveDate".to_string(), arguments: PathArguments::Plain },
            ])),
        ]),
    };
    let s = extract_struct_info(&item).expect("a type record");
    assert_eq!(s.name, "Order");
    assert_eq!(s.attributes, strings(&["# [derive (Queryable)]"]));
    let got: Vec<(String, String, bool)> =
        s.fields.iter().map(|f| (f.name.clone(), f.field_type.clone(), f.is_optional)).collect();
    assert_eq!(got, vec![col("id", "i32", false), col("note", "String", true), col("when", "chrono::NaiveDate", false)]);
    assert_eq!(s.fields[0].attributes, strings(&["# [serde (rename = \"ID\")]"]));
    assert!(s.fields[1].attributes.is_empty());
}

#[test]
fn struct_unit_has_no_fields() {
    let item = StructDecl { ident: "Marker".to_string(), attrs: vec![], fields: Fields::Unit };
    let s = extract_struct_info(&item).expect("a type record");
    assert_eq!(s.name, "Marker");
    assert!(s.fields.is_empty());
}

#[test]
fn struct_positional_fails() {
    let item = StructDecl { ident: "Pair".to_string(), attrs: vec![], fields: Fields::Unnamed };
    assert_eq!(extract_struct_info(&item).err(), Some("Tuple structs not supported".to_string()));
}

#[test]
fn struct_field_without_name_fails() {
    let item = StructDecl {
        ident: "Odd".to_string(),
        attrs: vec![],
        fields: Fields::Named(vec![
            field("a", plain("i32")),
            FieldDecl { ident: None, ty: plain("i32"), attrs: vec![] },
        ]),
    };
    assert_eq!(extract_struct_info(&item).err(), Some("Field error: Unnamed field".to_string()));
}

#[test]
fn field_without_name_fails() {
    let f = FieldDecl { ident: None, ty: plain("u8"), attrs: vec![] };
    assert_eq!(extract_field_info(&f).err(), Some("Unnamed field".to_string()));
}

#[test]
fn macro_named_table_is_parsed() {
    let m = MacroDecl { path: strings(&["table"]), tokens: "posts (id) { id -> Int4 }".to_string() };
    let t = extract_diesel_table(&m).expect("a table");
    assert_eq!(t.name, "posts");
    let other = MacroDecl { path: strings(&["println"]), tokens: "posts (id) { id -> Int4 }".to_string() };
    assert!(extract_diesel_table(&other).is_none());
    let empty = MacroDecl { path: vec![], tokens: "posts (id) { id -> Int4 }".to_string() };
    assert!(extract_diesel_table(&empty).is_none());
}

#[test]
fn run_collects_records_in_order() {
    let items = vec![
        Decl::Other,
        Decl::Struct(StructDecl {
            ident: "User".to_string(),
            attrs: strings(&["# [derive (Queryable)]"]),
            fields: Fields::Named(vec![field("id", plain("i32"))]),
        }),
        Decl::Macro(MacroDecl { path: strings(&["table"]), tokens: "users (id) { id -> Int4 }".to_string() }),
        Decl::Struct(StructDecl { ident: "Tag".to_string(), attrs: vec![], fields: Fields::Unit }),
        Decl::Macro(MacroDecl { path: strings(&["table"]), tokens: "broken".to_string() }),
    ];
    let out = extract_items(&items).expect("a run");
    let names: Vec<&str> = out.structs.iter().map(|s| s.name.as_str()).collect();
    assert_eq!(names, vec!["User", "Tag"]);
    assert_eq!(out.diesel_tables.len(), 1);
    assert_eq!(out.diesel_tables[0].name, "users");
    assert_eq!(out.diesel_derives.len(), 1);
    assert_eq!(out.diesel_derives[0].struct_name, "User");
}

#[test]
fn run_aborts_on_positional_fields() {
    let items = vec![
        Decl::Struct(StructDecl {
            ident: "User".to_string(),
            attrs: strings(&["# [derive (Queryable)]"]),
            fields: Fields::Named(vec![field("id", plain("i32"))]),
        }),
        Decl::Macro(MacroDecl { path: strings(&["table"]), tokens: "users (id) { id -> Int4 }".to_string() }),
        Decl::Struct(StructDecl { ident: "Pair".to_string(), attrs: vec![], fields: Fields::Unnamed }),
        Decl::Struct(StructDecl { ident: "Late".to_string(), attrs: vec![], fields: Fields::Unit }),
    ];
    assert_eq!(extract_items(&items).err(), Some("Tuple structs not supported".to_string()));
}

#[test]
fn run_with_named_fields_never_fails() {
    let items = vec![
        Decl::Struct(StructDecl { ident: "A".to_string(), attrs: vec![], fields: Fields::Named(vec![]) }),
        Decl::Struct(StructDecl {
            ident: "B".to_string(),
            attrs: vec![],
            fields: Fields::Named(vec![field("x", TypeExpr::Tuple), field("y", TypeExpr::Reference)]),
        }),
    ];
    let out = extract_items(&items).expect("a run");
    assert_eq!(out.structs.len(), 2);
    assert!(out.diesel_derives.is_empty());
}
