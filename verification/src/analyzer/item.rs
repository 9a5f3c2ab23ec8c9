//! Items found by source analysis, as the inspector lists and searches them, and
//! crates installed in the local cargo registry.

use vstd::prelude::*;

verus! {

/// Visibility of an item.
#[derive(Debug, Clone, Copy, PartialEq, Eq, Structural)]
pub enum Visibility {
    Public,
    Crate,
    Private,
}

/// What an item is.
#[derive(Debug, Clone, Copy, PartialEq, Eq, Structural)]
pub enum ItemKind {
    Function,
    Struct,
    Enum,
    Trait,
    Module,
    TypeAlias,
    Const,
    Static,
    Impl,
    Macro,
}

/// The short kind label shown for an item.
pub open spec fn kind_label(k: ItemKind) -> Seq<char> {
    match k {
        ItemKind::Function => "fn"@,
        ItemKind::Struct => "struct"@,
        ItemKind::Enum => "enum"@,
        ItemKind::Trait => "trait"@,
        ItemKind::Module => "mod"@,
        ItemKind::TypeAlias => "type"@,
        ItemKind::Const => "const"@,
        ItemKind::Static => "static"@,
        ItemKind::Impl => "impl"@,
        ItemKind::Macro => "macro"@,
    }
}

/// An analyzed item: its kind, name, full path, enclosing modules, visibility,
/// documentation, definition text and source location.
#[derive(Debug, Clone)]
pub struct AnalyzedItem {
    pub kind: ItemKind,
    pub name: String,
    pub qualified_name: String,
    pub modules: Vec<String>,
    pub visibility: Option<Visibility>,
    pub documentation: Option<String>,
    pub definition: String,
    pub source_file: Option<String>,
    pub source_line: Option<usize>,
}

impl AnalyzedItem {
    /// The item's name.
    pub fn name(&self) -> (s: &str)
        ensures
            s@ == self.name@,
    {
        self.name.as_str()
    }

    /// The short kind label (`fn`, `struct`, `enum`, ...).
    pub fn kind(&self) -> (s: &'static str)
        ensures
            s@ == kind_label(self.kind),
    {
        match self.kind {
            ItemKind::Function => "fn",
            ItemKind::Struct => "struct",
            ItemKind::Enum => "enum",
            ItemKind::Trait => "trait",
            ItemKind::Module => "mod",
            ItemKind::TypeAlias => "type",
            ItemKind::Const => "const",
            ItemKind::Static => "static",
            ItemKind::Impl => "impl",
            ItemKind::Macro => "macro",
        }
    }

    /// The full path of the item.
    pub fn qualified_name(&self) -> (s: &str)
        ensures
            s@ == self.qualified_name@,
    {
        self.qualified_name.as_str()
    }
}

/// A crate installed in the local cargo registry: its manifest's metadata and where
/// its sources lie.
#[derive(Debug, Clone)]
pub struct InstalledCrate {
    pub name: String,
    pub version: String,
    pub description: Option<String>,
    pub license: Option<String>,
    pub authors: Vec<String>,
    pub repository: Option<String>,
    pub documentation: Option<String>,
    pub keywords: Vec<String>,
    pub categories: Vec<String>,
    pub path: String,
}

} // verus!
