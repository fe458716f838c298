//! Filesystem paths held as their sequence of components.

use vstd::prelude::*;

verus! {

/// A path, held as the ordered list of its components (for `/data/app` the
/// components are `/`, `data` and `app`). Joining a component appends it.
#[derive(Debug, Clone)]
pub struct FsPath {
    pub parts: Vec<String>,
}

impl View for FsPath {
    type V = Seq<Seq<char>>;

    open spec fn view(&self) -> Seq<Seq<char>> {
        self.parts@.map_values(|s: String| s@)
    }
}

impl FsPath {
    /// The path made of the given components, in order.
    pub fn new(parts: Vec<String>) -> (r: FsPath)
        ensures
            r@ == parts@.map_values(|s: String| s@),
    {
        FsPath { parts }
    }

    /// This path with one more component, `part`, at its end.
    pub fn join(&self, part: &str) -> (r: FsPath)
        ensures
            r@ == self@.push(part@),
    {
        let mut parts: Vec<String> = Vec::new();
        let n = self.parts.len();
        let mut i: usize = 0;
        while i < n
            invariant
                n == self.parts.len(),
                i <= n,
                parts.len() == i,
                forall|j: int| 0 <= j < i ==> (#[trigger] parts@[j])@ == self@[j],
            decreases n - i,
        {
            let piece: String = self.parts[i].as_str().to_owned();
            parts.push(piece);
            i = i + 1;
        }
        parts.push(part.to_owned());
        let r = FsPath { parts };
        assert(r@ =~= self@.push(part@));
        r
    }
}

/// Directory, under an application's data directory, that holds the
/// downloaded model files.
pub open spec fn models_dir_of(app_data_dir: Seq<Seq<char>>) -> Seq<Seq<char>> {
    app_data_dir.push("models"@).push("summary"@)
}

/// The models directory: `app_data_dir/models/summary`. Pure path arithmetic,
/// nothing on disk is read.
pub fn get_models_directory(app_data_dir: &FsPath) -> (r: FsPath)
    ensures
        r@ == models_dir_of(app_data_dir@),
{
    app_data_dir.join("models").join("summary")
}

} // verus!
