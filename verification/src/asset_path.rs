//! Asset paths as the host's loader takes them.

use vstd::prelude::*;
use vstd::string::StringExecFns;

verus! {

/// The path of an asset file and, where the file holds several assets, the
/// label of one of them.
#[derive(Clone, Debug)]
pub struct AssetPath {
    pub path: String,
    pub label: Option<String>,
}

impl AssetPath {
    /// The path as it is handed to the loader: the file's path, followed by
    /// `#` and the label where there is one.
    pub open spec fn load_path(&self) -> Seq<char> {
        match self.label {
            Some(label) => self.path@ + seq!['#'] + label@,
            None => self.path@,
        }
    }

    /// The asset `label` of the file at `path`, or the file itself.
    pub fn new(path: String, label: Option<String>) -> (asset_path: AssetPath)
        ensures
            asset_path.path == path,
            asset_path.label == label,
    {
        AssetPath { path, label }
    }

    /// Writes the path in the form that the loader takes.
    pub fn format_as_load_path(&self) -> (formatted: String)
        ensures
            formatted@ == self.load_path(),
    {
        let mut formatted = self.path.clone();
        match &self.label {
            Some(label) => {
                proof {
                    reveal_strlit("#");
                }
                formatted.append("#");
                formatted.append(label.as_str());
                assert("#"@ =~= seq!['#']);
            },
            None => {},
        }
        formatted
    }
}

} // verus!
