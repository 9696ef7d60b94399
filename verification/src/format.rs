//! The text encodings a record can be written in.

use vstd::prelude::*;

verus! {

/// One of the three interchangeable text encodings.
#[derive(Clone, Copy, Debug, PartialEq, Eq, Structural)]
pub enum ESerializedType {
    Yaml,
    Toml,
    Json,
}

impl Default for ESerializedType {
    fn default() -> (r: Self)
        ensures
            r == ESerializedType::Yaml,
    {
        ESerializedType::Yaml
    }
}

impl ESerializedType {
    /// The file extension, and display name, of the encoding.
    pub open spec fn spec_extension(self) -> Seq<char> {
        match self {
            ESerializedType::Yaml => "yaml"@,
            ESerializedType::Toml => "toml"@,
            ESerializedType::Json => "json"@,
        }
    }

    /// The file extension that files in this encoding carry.
    pub fn extension(&self) -> (r: &'static str)
        ensures
            r@ == self.spec_extension(),
    {
        match self {
            ESerializedType::Yaml => "yaml",
            ESerializedType::Toml => "toml",
            ESerializedType::Json => "json",
        }
    }

    /// The name of the encoding as it is shown to a user.
    pub fn to_string(&self) -> (r: String)
        ensures
            r@ == self.spec_extension(),
    {
        self.extension().to_owned()
    }
}

/// The extension of the plain-text body that a script record exports.
pub open spec fn spec_script_extension() -> Seq<char> {
    "mwscript"@
}

/// The extension of the plain-text body that a script record exports.
pub fn script_extension() -> (r: &'static str)
    ensures
        r@ == spec_script_extension(),
{
    "mwscript"
}

/// The three extensions are pairwise different, and none is the script extension.
pub proof fn lemma_extensions_distinct(a: ESerializedType, b: ESerializedType)
    ensures
        a.spec_extension() == b.spec_extension() ==> a == b,
        a.spec_extension() != spec_script_extension(),
{
    reveal_strlit("yaml");
    reveal_strlit("toml");
    reveal_strlit("json");
    reveal_strlit("mwscript");
    assert("yaml"@[0] == 'y' && "toml"@[0] == 't' && "json"@[0] == 'j');
}

} // verus!
