//! File-driven test declarations.
//!
//! A files declaration names a root directory, an ordered list of slots —
//! exactly one of which is the pattern slot, the others replacement
//! templates — and expands into one case per file under the root whose path
//! matches the pattern.
use vstd::prelude::*;

use crate::text;

verus! {

/// Descriptor of a files-driven test declaration.
///
/// `params` holds the slot texts in argument order: `params[pattern]` is the
/// regular expression bound to the matched path itself, every other entry is
/// a replacement template deriving a companion path from the match.
pub struct FilesTestDesc {
    pub name: String,
    pub ignore: bool,
    pub root: String,
    pub params: Vec<String>,
    pub pattern: usize,
}

impl FilesTestDesc {
    /// Exactly one slot is the pattern slot.
    pub open spec fn wf(&self) -> bool {
        self.pattern < self.params.len()
    }

    /// The pattern slot's regular expression.
    pub open spec fn spec_pattern(&self) -> Seq<char> {
        self.params@[self.pattern as int]@
    }
}

/// One concrete case derived from a files declaration: the matched path,
/// one derived path per slot, the derived case name, and the ignore flag.
pub struct FileCase {
    pub name: String,
    pub ignore: bool,
    pub path: String,
    pub paths: Vec<String>,
}

/// Relies on `walkdir::WalkDir`: the walk yields every directory entry
/// under the root, with its path and whether it is a regular file; each
/// entry's path starts with the root path as given; a walk error comes
/// back as `Err` with the walker's message.
#[verifier::external_body]
fn walk_entries(root: &str) -> (r: Result<Vec<(String, bool)>, String>)
    ensures
        r matches Ok(entries) ==> forall|i: int|
            0 <= i < entries@.len() ==> root@.is_prefix_of((#[trigger] entries@[i]).0@),
{
    let mut out: Vec<(String, bool)> = Vec::new();
    for entry in walkdir::WalkDir::new(root) {
        match entry {
            Err(e) => {
                return Err(e.to_string());
            },
            Ok(e) => {
                out.push((e.path().to_string_lossy().into_owned(), e.file_type().is_file()));
            },
        }
    }
    Ok(out)
}

/// What the scanner keeps of a walked entry: a regular file no component
/// of whose path below the root begins with `.`. A hidden file, and the
/// whole subtree of a hidden directory, is excluded.
pub open spec fn spec_scan_keep(root: Seq<char>) -> spec_fn((String, bool)) -> bool {
    |e: (String, bool)| e.1 && text::spec_no_hidden(text::spec_relative(root, e.0@))
}

/// Keep exactly the walked entries under `root` that are regular files
/// with no hidden component below the root, in walk order.
pub fn scan_filter(root: &str, entries: &Vec<(String, bool)>) -> (r: Vec<String>)
    ensures
        r@ == entries@.filter(spec_scan_keep(root@)).map_values(|e: (String, bool)| e.0),
{
    let rv = text::chars_of(root);
    let mut out: Vec<String> = Vec::new();
    for i in 0..entries.len()
        invariant
            rv@ == root@,
            out@ == entries@.take(i as int).filter(spec_scan_keep(root@)).map_values(
                |e: (String, bool)| e.0,
            ),
    {
        let pv = text::chars_of(entries[i].0.as_str());
        let rel = text::relative_chars(&rv, &pv);
        if entries[i].1 && text::no_hidden_component(&rel) {
            let p = entries[i].0.clone();
            out.push(p);
        }
        proof {
            text::lemma_filter_push(
                entries@.take(i as int),
                spec_scan_keep(root@),
                entries@[i as int],
            );
            assert(entries@.take(i + 1 as int) =~= entries@.take(i as int).push(
                entries@[i as int],
            ));
            assert(out@ =~= entries@.take(i + 1 as int).filter(spec_scan_keep(root@)).map_values(
                |e: (String, bool)| e.0,
            ));
        }
    }
    proof {
        assert(entries@.take(entries@.len() as int) =~= entries@);
    }
    out
}

/// Recursively list the regular files under `root`, excluding every entry
/// whose name begins with `.`: a hidden file is dropped, and so is
/// everything inside a hidden directory. The order of the result is not
/// specified; callers must not depend on it. An error carries the
/// walker's message.
pub fn scan_files(root: &str) -> (r: Result<Vec<String>, String>)
    ensures
        r matches Ok(paths) ==> forall|i: int|
            0 <= i < paths@.len() ==> root@.is_prefix_of(#[trigger] paths@[i]@)
                && text::spec_no_hidden(text::spec_relative(root@, paths@[i]@)),
{
    broadcast use vstd::seq_lib::group_filter_ensures;

    let entries = walk_entries(root)?;
    let paths = scan_filter(root, &entries);
    proof {
        text::lemma_filter_members(entries@, spec_scan_keep(root@));
        let f = entries@.filter(spec_scan_keep(root@));
        assert forall|i: int|
            0 <= i < paths@.len() implies root@.is_prefix_of(#[trigger] paths@[i]@)
            && text::spec_no_hidden(text::spec_relative(root@, paths@[i]@)) by {
            assert(paths@[i] == f[i].0);
            assert(spec_scan_keep(root@)(f[i]));
            assert(entries@.contains(f[i]));
            let j = choose|j: int| 0 <= j < entries@.len() && entries@[j] == f[i];
            assert(root@.is_prefix_of(entries@[j].0@));
        }
    }
    Ok(paths)
}

/// Take a function argument out of its derived holder: either borrow from
/// the holder or move the value out, depending on what the test body's
/// signature asks for.
pub trait TakeArg<'a, T: 'a> {
    fn take(&'a mut self) -> T;
}

/// Derive a test-function argument from a matched or templated path: the
/// holder type `Derived` owns whatever the argument borrows from or takes.
/// Implementations that read the file at the path live with the caller,
/// beside its other input handling.
pub trait DeriveArg<'a>: 'a + Sized {
    type Derived: TakeArg<'a, Self>;

    fn derive(path: &'a str) -> Self::Derived;
}

/// An owned string argument is taken out of its holder whole; the holder
/// is left empty, which is fine because each holder is taken only once.
impl<'a> TakeArg<'a, String> for String {
    fn take(&'a mut self) -> (r: String)
        ensures
            r == *old(self),
            final(self)@.len() == 0,
    {
        let mut taken = String::new();
        core::mem::swap(self, &mut taken);
        taken
    }
}

/// An owned byte-buffer argument is taken out of its holder whole; the
/// holder is left empty, which is fine because each holder is taken only
/// once.
impl<'a> TakeArg<'a, Vec<u8>> for Vec<u8> {
    fn take(&'a mut self) -> (r: Vec<u8>)
        ensures
            r == *old(self),
            final(self)@.len() == 0,
    {
        let mut taken: Vec<u8> = Vec::new();
        core::mem::swap(self, &mut taken);
        taken
    }
}

} // verus!
