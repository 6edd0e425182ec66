//! The model files of a model directory: which files are models, under which
//! identifier each is registered, and in which order they are loaded.

use vstd::prelude::*;
use vstd::string::*;
use crate::utils::{ends_with, has_prefix, has_suffix, starts_with};

verus! {

/// The container a model is stored in.
#[derive(Debug, Clone, Copy, PartialEq, Eq, Structural)]
pub enum ModelFormat {
    /// Network weights in `model_<id>.onnx` beside a style file `style_vectors_<id>.json`.
    StylePair,
    /// One packed file `<id>.sbv2`.
    Sbv2,
    /// One packed file `<id>.aivmx`.
    Aivmx,
}

/// A model file: its container and the identifier its model is registered under.
#[derive(Debug, Clone, PartialEq, Eq)]
pub struct ModelFile {
    pub format: ModelFormat,
    pub ident: String,
}

impl View for ModelFile {
    type V = (ModelFormat, Seq<char>);

    open spec fn view(&self) -> (ModelFormat, Seq<char>) {
        (self.format, self.ident@)
    }
}

/// The characters of `name` between its first `front` and its last `back` characters.
pub open spec fn stem(name: Seq<char>, front: nat, back: nat) -> Seq<char> {
    name.subrange(front as int, name.len() - back)
}

/// Whether `name` is `model_<id>.onnx` for some identifier.
pub open spec fn is_weights_name(name: Seq<char>) -> bool {
    has_suffix(name, ".onnx"@) && has_prefix(name, "model_"@)
}

/// In a name that begins with `model_` and ends with `.onnx` the two do not
/// overlap: an identifier, if an empty one, stands between them.
pub proof fn lemma_weights_name_has_stem(name: Seq<char>)
    requires
        is_weights_name(name),
    ensures
        name.len() >= "model_"@.len() + ".onnx"@.len(),
        name == file_name_of(
            ModelFormat::StylePair,
            stem(name, "model_"@.len(), ".onnx"@.len()),
        ),
{
    reveal_strlit("model_");
    reveal_strlit(".onnx");
    let n = name.len() as int;
    if n < 11 {
        assert(name.subrange(0, 6)[5] == '_');
        assert(name.subrange(n - 5, n)[10 - n] == name[5]);
    }
}

/// What a file name says of the file: a model in one of the three containers,
/// with its identifier, or no model at all.
pub open spec fn classify(name: Seq<char>) -> Option<(ModelFormat, Seq<char>)> {
    if is_weights_name(name) {
        Some((ModelFormat::StylePair, stem(name, "model_"@.len(), ".onnx"@.len())))
    } else if has_suffix(name, ".sbv2"@) {
        Some((ModelFormat::Sbv2, stem(name, 0, ".sbv2"@.len())))
    } else if has_suffix(name, ".aivmx"@) {
        Some((ModelFormat::Aivmx, stem(name, 0, ".aivmx"@.len())))
    } else {
        None
    }
}

/// The view of an optional model file.
pub open spec fn file_view(file: Option<ModelFile>) -> Option<(ModelFormat, Seq<char>)> {
    match file {
        Some(f) => Some(f@),
        None => None,
    }
}

fn cut(name: &str, front: usize, back: usize) -> (ident: String)
    requires
        front + back <= name@.len(),
    ensures
        ident@ == stem(name@, front as nat, back as nat),
{
    let n: usize = name.unicode_len();
    name.substring_char(front, n - back).to_owned()
}

/// Reads a file name of the model directory.
pub fn classify_model_file(name: &str) -> (file: Option<ModelFile>)
    ensures
        file_view(file) == classify(name@),
{
    if ends_with(name, ".onnx") && starts_with(name, "model_") {
        proof {
            lemma_weights_name_has_stem(name@);
        }
        let front: usize = "model_".unicode_len();
        let onnx: usize = ".onnx".unicode_len();
        Some(ModelFile { format: ModelFormat::StylePair, ident: cut(name, front, onnx) })
    } else if ends_with(name, ".sbv2") {
        Some(ModelFile { format: ModelFormat::Sbv2, ident: cut(name, 0, ".sbv2".unicode_len()) })
    } else if ends_with(name, ".aivmx") {
        Some(ModelFile { format: ModelFormat::Aivmx, ident: cut(name, 0, ".aivmx".unicode_len()) })
    } else {
        None
    }
}

/// The name of the file that holds the model: the file `classify` reads the model
/// file from.
pub open spec fn file_name_of(format: ModelFormat, ident: Seq<char>) -> Seq<char> {
    match format {
        ModelFormat::StylePair => "model_"@ + ident + ".onnx"@,
        ModelFormat::Sbv2 => ident + ".sbv2"@,
        ModelFormat::Aivmx => ident + ".aivmx"@,
    }
}

/// The name of the style file that goes with the weights of a style pair.
pub open spec fn style_file_name_of(ident: Seq<char>) -> Seq<char> {
    "style_vectors_"@ + ident + ".json"@
}

impl ModelFile {
    /// The name of the file that holds the model.
    pub fn file_name(&self) -> (name: String)
        ensures
            name@ == file_name_of(self.format, self.ident@),
    {
        match self.format {
            ModelFormat::StylePair => "model_".to_owned().concat(self.ident.as_str()).concat(
                ".onnx",
            ),
            ModelFormat::Sbv2 => self.ident.clone().concat(".sbv2"),
            ModelFormat::Aivmx => self.ident.clone().concat(".aivmx"),
        }
    }

    /// The name of the style file beside the model file; only a style pair has one.
    pub fn style_file_name(&self) -> (name: Option<String>)
        ensures
            match name {
                Some(name) => self.format == ModelFormat::StylePair && name@ == style_file_name_of(
                    self.ident@,
                ),
                None => self.format != ModelFormat::StylePair,
            },
    {
        match self.format {
            ModelFormat::StylePair => Some(
                "style_vectors_".to_owned().concat(self.ident.as_str()).concat(".json"),
            ),
            _ => None,
        }
    }
}

/// The name of a model file is read back as that model file, whatever the
/// identifier.
pub proof fn lemma_file_name_classifies(format: ModelFormat, ident: Seq<char>)
    ensures
        classify(file_name_of(format, ident)) == Some((format, ident)),
{
    reveal_strlit("model_");
    reveal_strlit(".onnx");
    reveal_strlit(".sbv2");
    reveal_strlit(".aivmx");
    let name = file_name_of(format, ident);
    let n = name.len() as int;
    match format {
        ModelFormat::StylePair => {
            assert(name.subrange(n - 5, n) =~= ".onnx"@);
            assert(name.subrange(0, 6) =~= "model_"@);
        },
        ModelFormat::Sbv2 => {
            assert(name.subrange(n - 5, n) =~= ".sbv2"@);
            assert(name.subrange(n - 5, n)[4] != ".onnx"@[4]);
        },
        ModelFormat::Aivmx => {
            assert(name.subrange(n - 6, n) =~= ".aivmx"@);
            assert(name.subrange(n - 5, n)[0] != ".onnx"@[0]);
        },
    }
}

/// The characters of each name.
pub open spec fn texts(names: Seq<String>) -> Seq<Seq<char>> {
    names.map_values(|name: String| name@)
}

/// The views of a list of model files.
pub open spec fn file_views(files: Seq<ModelFile>) -> Seq<(ModelFormat, Seq<char>)> {
    files.map_values(|file: ModelFile| file@)
}

/// The model files among `names`, in the order of `names`: the weight files of
/// style pairs if `pairs`, the packed files if not.
pub open spec fn chosen(names: Seq<Seq<char>>, pairs: bool) -> Seq<(ModelFormat, Seq<char>)>
    decreases names.len(),
{
    if names.len() == 0 {
        seq![]
    } else {
        let before = chosen(names.drop_last(), pairs);
        match classify(names.last()) {
            Some(file) => if (file.0 == ModelFormat::StylePair) == pairs {
                before.push(file)
            } else {
                before
            },
            None => before,
        }
    }
}

/// The order in which the models of a directory are loaded: every packed file as
/// the directory lists it, then every style pair as the directory lists it.
pub open spec fn loading_order(names: Seq<Seq<char>>) -> Seq<(ModelFormat, Seq<char>)> {
    chosen(names, false) + chosen(names, true)
}

/// Plans the loading of a model directory from the names of its files.
pub fn load_order(names: &Vec<String>) -> (files: Vec<ModelFile>)
    ensures
        file_views(files@) == loading_order(texts(names@)),
{
    let mut packed: Vec<ModelFile> = Vec::new();
    let mut pairs: Vec<ModelFile> = Vec::new();
    let mut i: usize = 0;
    while i < names.len()
        invariant
            i <= names.len(),
            file_views(packed@) == chosen(texts(names@).take(i as int), false),
            file_views(pairs@) == chosen(texts(names@).take(i as int), true),
        decreases names.len() - i,
    {
        proof {
            let upto = texts(names@).take(i + 1);
            assert(upto.drop_last() =~= texts(names@).take(i as int));
        }
        match classify_model_file(names[i].as_str()) {
            Some(file) => {
                if file.format == ModelFormat::StylePair {
                    pairs.push(file);
                } else {
                    packed.push(file);
                }
            },
            None => {},
        }
        i += 1;
    }
    assert(texts(names@).take(i as int) =~= texts(names@));
    packed.append(&mut pairs);
    packed
}

} // verus!
