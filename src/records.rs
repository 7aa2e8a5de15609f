//! The records that extraction produces, and their mathematical views.
use vstd::prelude::*;

use crate::text::views;

verus! {

/// One named field of a record-like type.
#[derive(Clone, Debug)]
pub struct RustField {
    pub name: String,
    pub field_type: String,
    pub is_optional: bool,
    pub attributes: Vec<String>,
}

/// A record-like type: its name, its fields in declaration order, and the
/// raw text of its attributes.
#[derive(Clone, Debug)]
pub struct RustStruct {
    pub name: String,
    pub fields: Vec<RustField>,
    pub attributes: Vec<String>,
}

/// One table of a schema-table declaration.
#[derive(Clone, Debug)]
pub struct DieselTable {
    pub name: String,
    pub primary_key: Vec<String>,
    pub columns: Vec<DieselColumn>,
}

/// One column of a schema table.
#[derive(Clone, Debug)]
pub struct DieselColumn {
    pub name: String,
    pub sql_type: String,
    pub is_nullable: bool,
}

/// The mapping markers and bound table names found on one type.
#[derive(Clone, Debug)]
pub struct DieselDerive {
    pub struct_name: String,
    pub derives: Vec<String>,
    pub associations: Vec<String>,
}

/// The view of a `RustField`.
pub struct FieldView {
    pub name: Seq<char>,
    pub field_type: Seq<char>,
    pub is_optional: bool,
    pub attributes: Seq<Seq<char>>,
}

/// The view of a `RustStruct`.
pub struct StructView {
    pub name: Seq<char>,
    pub fields: Seq<FieldView>,
    pub attributes: Seq<Seq<char>>,
}

/// The view of a `DieselColumn`.
pub struct ColumnView {
    pub name: Seq<char>,
    pub sql_type: Seq<char>,
    pub is_nullable: bool,
}

/// The view of a `DieselTable`.
pub struct TableView {
    pub name: Seq<char>,
    pub primary_key: Seq<Seq<char>>,
    pub columns: Seq<ColumnView>,
}

/// The view of a `DieselDerive`.
pub struct DeriveView {
    pub struct_name: Seq<char>,
    pub derives: Seq<Seq<char>>,
    pub associations: Seq<Seq<char>>,
}

impl View for RustField {
    type V = FieldView;

    open spec fn view(&self) -> FieldView {
        FieldView {
            name: self.name@,
            field_type: self.field_type@,
            is_optional: self.is_optional,
            attributes: views(self.attributes@),
        }
    }
}

impl View for RustStruct {
    type V = StructView;

    open spec fn view(&self) -> StructView {
        StructView {
            name: self.name@,
            fields: self.fields@.map_values(|f: RustField| f@),
            attributes: views(self.attributes@),
        }
    }
}

impl View for DieselColumn {
    type V = ColumnView;

    open spec fn view(&self) -> ColumnView {
        ColumnView { name: self.name@, sql_type: self.sql_type@, is_nullable: self.is_nullable }
    }
}

impl View for DieselTable {
    type V = TableView;

    open spec fn view(&self) -> TableView {
        TableView {
            name: self.name@,
            primary_key: views(self.primary_key@),
            columns: self.columns@.map_values(|c: DieselColumn| c@),
        }
    }
}

impl View for DieselDerive {
    type V = DeriveView;

    open spec fn view(&self) -> DeriveView {
        DeriveView {
            struct_name: self.struct_name@,
            derives: views(self.derives@),
            associations: views(self.associations@),
        }
    }
}

} // verus!
