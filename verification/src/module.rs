//! Source modules and loaded-module descriptors.
//!
//! A `JsModule` is an unloaded source unit: a filename and its contents. A
//! `JsHandle` describes a unit the engine has loaded. Reading files and
//! directories is the caller's work outside this crate; what stands here is
//! the logic: which outcome a load maps to, and which names a directory scan
//! keeps (only recognized script extensions).

use vstd::prelude::*;

use crate::errors::BridgeError;

verus! {

/// Whether a filename carries a recognized script extension: a stem in its
/// final component, then `.js` or `.ts`. A hidden file named exactly `.js`
/// or `.ts` has no extension and is not recognized.
pub open spec fn is_script_name(s: Seq<char>) -> bool {
    &&& s.len() >= 4
    &&& s[s.len() - 4] != '/'
    &&& s[s.len() - 3] == '.'
    &&& (s[s.len() - 2] == 'j' || s[s.len() - 2] == 't')
    &&& s[s.len() - 1] == 's'
}

/// Decides whether a filename carries a recognized script extension.
pub fn has_script_extension(name: &str) -> (r: bool)
    ensures
        r == is_script_name(name@),
{
    let n = name.unicode_len();
    if n < 4 {
        return false;
    }
    let sep = name.get_char(n - 4);
    let c0 = name.get_char(n - 3);
    let c1 = name.get_char(n - 2);
    let c2 = name.get_char(n - 1);
    sep != '/' && c0 == '.' && (c1 == 'j' || c1 == 't') && c2 == 's'
}

/// One step of `Seq::filter`: filtering a sequence extended by one element
/// keeps the filtered prefix and appends the element exactly when it passes.
proof fn lemma_filter_push(s: Seq<Seq<char>>, pred: spec_fn(Seq<char>) -> bool, x: Seq<char>)
    ensures
        s.push(x).filter(pred) == if pred(x) {
            s.filter(pred).push(x)
        } else {
            s.filter(pred)
        },
{
    reveal(Seq::filter);
    assert(s.push(x).drop_last() =~= s);
    assert(s.push(x).last() == x);
}

/// The names of one directory's entries that a directory load keeps: exactly
/// those with a recognized script extension, in the order given.
pub fn select_script_files(names: &Vec<String>) -> (r: Vec<String>)
    ensures
        r@.map_values(|s: String| s@) == names@.map_values(|s: String| s@).filter(
            |s: Seq<char>| is_script_name(s),
        ),
{
    let ghost pred = |s: Seq<char>| is_script_name(s);
    let mut out: Vec<String> = Vec::new();
    let mut k: usize = 0;
    while k < names.len()
        invariant
            pred == (|s: Seq<char>| is_script_name(s)),
            k <= names.len(),
            out@.map_values(|s: String| s@) == names@.subrange(0, k as int).map_values(
                |s: String| s@,
            ).filter(pred),
        decreases names.len() - k,
    {
        let ghost prefix = names@.subrange(0, k as int).map_values(|s: String| s@);
        let keep = has_script_extension(names[k].as_str());
        if keep {
            out.push(names[k].clone());
        }
        k += 1;
        proof {
            let prefix2 = names@.subrange(0, k as int).map_values(|s: String| s@);
            let x = names@[k - 1]@;
            assert(prefix2 =~= prefix.push(x));
            lemma_filter_push(prefix, pred, x);
            if keep {
                assert(out@.map_values(|s: String| s@) =~= prefix.filter(pred).push(x));
            }
        }
    }
    proof {
        assert(names@.subrange(0, names@.len() as int) =~= names@);
    }
    out
}

/// An unloaded source unit: a filename and the text it holds.
pub struct JsModule {
    filename: String,
    contents: String,
}

impl JsModule {
    /// The filename, as a sequence of characters.
    pub closed spec fn filename_view(self) -> Seq<char> {
        self.filename@
    }

    /// The contents, as a sequence of characters.
    pub closed spec fn contents_view(self) -> Seq<char> {
        self.contents@
    }

    /// A source unit from a filename and its contents.
    pub fn new(filename: String, contents: String) -> (m: Self)
        ensures
            m.filename_view() == filename@,
            m.contents_view() == contents@,
    {
        JsModule { filename, contents }
    }

    /// The outcome of loading a source unit from a path: the contents read
    /// from the file, or, where the path named no file, a `FileNotFound`
    /// error carrying the path.
    pub fn load(filename: String, contents: Option<String>) -> (r: Result<Self, BridgeError>)
        ensures
            contents matches Some(c) ==> (r matches Ok(m) && m.filename_view() == filename@
                && m.contents_view() == c@),
            contents is None ==> (r matches Err(e) && e matches BridgeError::FileNotFound(t)
                && t@ == filename@),
    {
        match contents {
            Some(c) => Ok(JsModule { filename, contents: c }),
            None => Err(BridgeError::FileNotFound(filename)),
        }
    }

    /// Returns the filename.
    pub fn filename(&self) -> (r: String)
        ensures
            r@ == self.filename_view(),
    {
        self.filename.clone()
    }

    /// Returns the contents.
    pub fn contents(&self) -> (r: String)
        ensures
            r@ == self.contents_view(),
    {
        self.contents.clone()
    }
}

/// A loaded source unit, as the engine reported it back.
pub struct JsHandle {
    filename: String,
    contents: String,
}

impl JsHandle {
    /// The filename, as a sequence of characters.
    pub closed spec fn filename_view(self) -> Seq<char> {
        self.filename@
    }

    /// The contents, as a sequence of characters.
    pub closed spec fn contents_view(self) -> Seq<char> {
        self.contents@
    }

    /// A descriptor of a loaded unit.
    pub fn new(filename: String, contents: String) -> (h: Self)
        ensures
            h.filename_view() == filename@,
            h.contents_view() == contents@,
    {
        JsHandle { filename, contents }
    }

    /// Returns the filename of the loaded unit.
    pub fn filename(&self) -> (r: String)
        ensures
            r@ == self.filename_view(),
    {
        self.filename.clone()
    }

    /// Returns the contents of the loaded unit.
    pub fn contents(&self) -> (r: String)
        ensures
            r@ == self.contents_view(),
    {
        self.contents.clone()
    }
}

} // verus!
