//! Reading the fields of a package manifest that drive root resolution:
//! the package name, the workspace flag, and the declared targets.

use vstd::prelude::*;

use crate::codec::{parse_toml, toml_doc};
use crate::errors::InitError;
use crate::value::{
    has_key, lemma_list_model, lemma_table_model, list_model_from, lookup, EntryModel, TomlTable,
    TomlValue, ValModel,
};

verus! {

/// What one manifest declares, as far as resolution cares.
#[derive(Clone, Debug)]
pub struct CargoManifest {
    /// The package name, where `package.name` is a plain string.
    pub package: Option<String>,
    /// Whether the manifest declares a workspace section.
    pub workspace: bool,
    /// The names of the declared binary targets, where a `bin` array
    /// exists and every element carries a plain-string name.
    pub binaries: Option<Vec<String>>,
    /// The name of the declared library target, if any.
    pub library: Option<String>,
}

/// How a manifest is ranked during the ancestor walk.
#[derive(Clone, Copy, PartialEq, Eq, Structural, Debug)]
pub enum ManifestClass {
    /// Declares a workspace: ends the walk, its directory is the root.
    Workspace,
    /// Declares a package name: a candidate root, superseded by anything
    /// found further up.
    Package,
    /// Declares neither: ignored.
    Neither,
}

/// An `Option<String>` seen as an optional character sequence.
pub open spec fn opt_string_view(o: Option<String>) -> Option<Seq<char>> {
    match o {
        Some(s) => Some(s@),
        None => None,
    }
}

/// An `Option<Vec<String>>` seen as an optional sequence of character
/// sequences.
pub open spec fn opt_strings_view(o: Option<Vec<String>>) -> Option<Seq<Seq<char>>> {
    match o {
        Some(v) => Some(v.deep_view()),
        None => None,
    }
}

/// The package name a manifest document declares: the string under
/// `package.name`, if `package` is a table and `name` a string.
pub open spec fn spec_package_name(m: Seq<EntryModel>) -> Option<Seq<char>> {
    match lookup(m, "package"@) {
        Some(ValModel::Table(p)) => match lookup(p, "name"@) {
            Some(ValModel::Text(s)) => Some(s),
            _ => None,
        },
        _ => None,
    }
}

/// Whether a manifest document declares a workspace: any `workspace` key
/// counts, whatever its value.
pub open spec fn spec_workspace(m: Seq<EntryModel>) -> bool {
    has_key(m, "workspace"@)
}

/// The library name a manifest document declares, if `lib` is a table
/// whose `name` is a string.
pub open spec fn spec_library(m: Seq<EntryModel>) -> Option<Seq<char>> {
    match lookup(m, "lib"@) {
        Some(ValModel::Table(l)) => match lookup(l, "name"@) {
            Some(ValModel::Text(s)) => Some(s),
            _ => None,
        },
        _ => None,
    }
}

/// The name of one binary-target element: it must be a table whose
/// `name` is a string.
pub open spec fn bin_name_of(v: ValModel) -> Option<Seq<char>> {
    match v {
        ValModel::Table(t) => match lookup(t, "name"@) {
            Some(ValModel::Text(s)) => Some(s),
            _ => None,
        },
        _ => None,
    }
}

/// Whether every element of a `bin` array carries a plain-string name.
pub open spec fn bins_well_formed(items: Seq<ValModel>) -> bool {
    forall|i: int| 0 <= i < items.len() ==> (#[trigger] bin_name_of(items[i])) is Some
}

/// The binary-target names a manifest document declares: all of them,
/// where `bin` is an array whose every element carries a plain-string
/// name; a `bin` key of any other shape reads as no binary list, the
/// same leniency `package.name` and `lib.name` get.
pub open spec fn spec_binaries(m: Seq<EntryModel>) -> Option<Seq<Seq<char>>> {
    match lookup(m, "bin"@) {
        Some(ValModel::List(items)) => if bins_well_formed(items) {
            Some(Seq::new(items.len(), |i: int| bin_name_of(items[i])->Some_0))
        } else {
            None
        },
        _ => None,
    }
}

/// Reads the binary-target names out of a `bin` array: all of them, or
/// `None` where any element lacks a plain-string name.
fn bin_names(items: &Vec<TomlValue>) -> (r: Option<Vec<String>>)
    ensures
        match r {
            Some(names) => bins_well_formed(list_model_from(*items, 0)) && names.deep_view()
                == Seq::new(
                list_model_from(*items, 0).len(),
                |j: int| bin_name_of(list_model_from(*items, 0)[j])->Some_0,
            ),
            None => !bins_well_formed(list_model_from(*items, 0)),
        },
{
    let ghost items_m = list_model_from(*items, 0);
    proof {
        lemma_list_model(*items);
    }
    let name_key: String = "name".to_owned();
    let n = items.len();
    let mut names: Vec<String> = Vec::new();
    let mut i: usize = 0;
    while i < n
        invariant
            n == items@.len(),
            i <= n,
            name_key@ == "name"@,
            items_m == list_model_from(*items, 0),
            items_m.len() == n,
            forall|j: int| 0 <= j < n ==> items_m[j] == items@[j].model(),
            names@.len() == i,
            forall|j: int| 0 <= j < i ==> (#[trigger] bin_name_of(items_m[j])) == Some(names@[j]@),
        decreases n - i,
    {
        match &items[i] {
            TomlValue::Table(bt) => match bt.get(&name_key) {
                Some(TomlValue::Text(s)) => {
                    names.push(s.clone());
                },
                _ => {
                    proof {
                        assert(bin_name_of(items_m[i as int]) is None);
                    }
                    return None;
                },
            },
            _ => {
                proof {
                    assert(bin_name_of(items_m[i as int]) is None);
                }
                return None;
            },
        }
        i = i + 1;
    }
    proof {
        assert(names.deep_view() =~= Seq::new(
            items_m.len(),
            |j: int| bin_name_of(items_m[j])->Some_0,
        ));
    }
    Some(names)
}

impl CargoManifest {
    /// Whether this manifest records exactly what document `m` declares.
    pub open spec fn matches_doc(self, m: Seq<EntryModel>) -> bool {
        &&& opt_string_view(self.package) == spec_package_name(m)
        &&& self.workspace == spec_workspace(m)
        &&& opt_strings_view(self.binaries) == spec_binaries(m)
        &&& opt_string_view(self.library) == spec_library(m)
    }

    /// Reads the manifest fields out of a parsed document.
    pub fn from_table(doc: &TomlTable) -> (cm: CargoManifest)
        ensures
            cm.matches_doc(doc.model()),
    {
        let name_key: String = "name".to_owned();

        let package: Option<String> = match doc.get(&"package".to_owned()) {
            Some(TomlValue::Table(p)) => match p.get(&name_key) {
                Some(TomlValue::Text(s)) => Some(s.clone()),
                _ => None,
            },
            _ => None,
        };

        let workspace = doc.position_of(&"workspace".to_owned()).is_some();

        let binaries: Option<Vec<String>> = match doc.get(&"bin".to_owned()) {
            Some(TomlValue::List(items)) => bin_names(items),
            _ => None,
        };

        let library: Option<String> = match doc.get(&"lib".to_owned()) {
            Some(TomlValue::Table(l)) => match l.get(&name_key) {
                Some(TomlValue::Text(s)) => Some(s.clone()),
                _ => None,
            },
            _ => None,
        };

        let cm = CargoManifest { package, workspace, binaries, library };
        proof {
            if spec_binaries(doc.model()) is Some {
                assert(opt_strings_view(cm.binaries)->Some_0 =~= spec_binaries(
                    doc.model(),
                )->Some_0);
            }
        }
        cm
    }

    /// Parses manifest text and reads its fields: text that is not
    /// valid TOML is the constructor's only error.
    pub fn from_str(text: &str) -> (r: Result<CargoManifest, InitError>)
        ensures
            match toml_doc(text@) {
                None => r matches Err(e) && e is ParseFailed,
                Some(m) => r matches Ok(cm) && cm.matches_doc(m),
            },
    {
        match parse_toml(text) {
            Ok(t) => Ok(Self::from_table(&t)),
            Err(msg) => Err(InitError::ParseFailed(msg)),
        }
    }

    /// The package-name step of initialization: the string under
    /// `package.name` of the given manifest text. Fails on text that is
    /// not TOML, on a manifest without a package name, and on a package
    /// name that is not a plain string — each with its own error.
    pub fn package_name_of(text: &str) -> (r: Result<String, InitError>)
        ensures
            match toml_doc(text@) {
                None => r matches Err(e) && e is ParseFailed,
                Some(m) => match lookup(m, "package"@) {
                    Some(ValModel::Table(p)) => match lookup(p, "name"@) {
                        Some(ValModel::Text(s)) => r matches Ok(name) && name@ == s,
                        Some(_) => r matches Err(e) && e is PackageNameNotString,
                        None => r matches Err(e) && e is MissingPackageName,
                    },
                    _ => r matches Err(e) && e is MissingPackageName,
                },
            },
    {
        let doc = match parse_toml(text) {
            Ok(t) => t,
            Err(msg) => {
                return Err(InitError::ParseFailed(msg));
            },
        };
        match doc.get(&"package".to_owned()) {
            Some(TomlValue::Table(p)) => match p.get(&"name".to_owned()) {
                Some(TomlValue::Text(s)) => Ok(s.clone()),
                Some(_) => Err(InitError::PackageNameNotString),
                None => Err(InitError::MissingPackageName),
            },
            _ => Err(InitError::MissingPackageName),
        }
    }

    /// How this manifest ranks in the walk: its spec value.
    pub open spec fn spec_classify(self) -> ManifestClass {
        if self.workspace {
            ManifestClass::Workspace
        } else if self.package is Some {
            ManifestClass::Package
        } else {
            ManifestClass::Neither
        }
    }

    /// Ranks this manifest for the ancestor walk: a workspace ends the
    /// walk, a named package is a candidate, anything else is ignored.
    pub fn classify(&self) -> (r: ManifestClass)
        ensures
            r == self.spec_classify(),
    {
        if self.workspace {
            ManifestClass::Workspace
        } else if self.package.is_some() {
            ManifestClass::Package
        } else {
            ManifestClass::Neither
        }
    }
}

} // verus!
