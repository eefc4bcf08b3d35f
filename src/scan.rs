use vstd::prelude::*;
use vstd::string::StrSliceExecFns;
use crate::book::{book_of_file, extract, BookView, DiskFile, ExtractError, KindleBook};

verus! {

/// The books of one completed scan, in discovery order.
#[derive(Debug, Clone)]
pub struct KindleDevice {
    pub books: Vec<KindleBook>,
}

/// A library together with the files that yielded no book.
pub struct ScanOutcome {
    pub library: KindleDevice,
    pub failures: Vec<ExtractError>,
}

pub open spec fn books_view(v: Seq<KindleBook>) -> Seq<BookView> {
    v.map_values(|b: KindleBook| b@)
}

pub open spec fn paths_view(v: Seq<String>) -> Seq<Seq<char>> {
    v.map_values(|s: String| s@)
}

/// A path names a book container when its file name ends in `.mobi`, in any
/// letter case, with a non-empty part before the dot.
pub open spec fn has_book_extension(p: Seq<char>) -> bool {
    let n = p.len();
    &&& n >= 6
    &&& p[n - 6] != '/'
    &&& p[n - 5] == '.'
    &&& (p[n - 4] == 'm' || p[n - 4] == 'M')
    &&& (p[n - 3] == 'o' || p[n - 3] == 'O')
    &&& (p[n - 2] == 'b' || p[n - 2] == 'B')
    &&& (p[n - 1] == 'i' || p[n - 1] == 'I')
}

/// The paths among `s` that name book containers, in their order.
pub open spec fn candidates_of(s: Seq<Seq<char>>) -> Seq<Seq<char>>
    decreases s.len(),
{
    if s.len() == 0 {
        Seq::empty()
    } else {
        let rest = candidates_of(s.drop_last());
        if has_book_extension(s.last()) {
            rest.push(s.last())
        } else {
            rest
        }
    }
}

/// The books that the files yield, in the files' order.
pub open spec fn books_of(files: Seq<DiskFile>) -> Seq<BookView>
    decreases files.len(),
{
    if files.len() == 0 {
        Seq::empty()
    } else {
        let rest = books_of(files.drop_last());
        match book_of_file(files.last()) {
            Some(b) => rest.push(b),
            None => rest,
        }
    }
}

/// The paths of the files that yield no book, in the files' order.
pub open spec fn failed_paths(files: Seq<DiskFile>) -> Seq<Seq<char>>
    decreases files.len(),
{
    if files.len() == 0 {
        Seq::empty()
    } else {
        let rest = failed_paths(files.drop_last());
        match book_of_file(files.last()) {
            Some(_) => rest,
            None => rest.push(files.last().path@),
        }
    }
}

pub open spec fn error_paths(v: Seq<ExtractError>) -> Seq<Seq<char>> {
    v.map_values(|e: ExtractError| e.path_view())
}

/// The bytes of a file, if they could be read.
pub open spec fn bytes_of(f: DiskFile) -> Option<Seq<u8>> {
    match f.contents {
        Ok(b) => Some(b@),
        Err(_) => None,
    }
}

/// The books of two runs of files placed one after the other are the books of
/// the first run followed by those of the second.
pub proof fn books_of_concat(a: Seq<DiskFile>, b: Seq<DiskFile>)
    ensures
        books_of(a + b) == books_of(a) + books_of(b),
    decreases b.len(),
{
    if b.len() == 0 {
        assert(a + b =~= a);
        assert(books_of(a) + books_of(b) =~= books_of(a));
    } else {
        books_of_concat(a, b.drop_last());
        assert((a + b).drop_last() =~= a + b.drop_last());
        assert((a + b).last() == b.last());
        match book_of_file(b.last()) {
            Some(x) => {
                assert(books_of(a) + books_of(b) =~= (books_of(a) + books_of(b.drop_last())).push(x));
            },
            None => {},
        }
    }
}

/// Files that each yield a book yield one book apiece.
pub proof fn books_of_all_readable(files: Seq<DiskFile>)
    requires
        forall|j: int| 0 <= j < files.len() ==> (#[trigger] book_of_file(files[j])) is Some,
    ensures
        books_of(files).len() == files.len(),
    decreases files.len(),
{
    if files.len() > 0 {
        assert(book_of_file(files[files.len() - 1]) is Some);
        let rest = files.drop_last();
        assert forall|j: int| 0 <= j < rest.len() implies (#[trigger] book_of_file(rest[j])) is Some by {
            assert(rest[j] == files[j]);
        }
        books_of_all_readable(rest);
    }
}

/// Scanning is deterministic: two lists of files with the same bytes, file by
/// file, give the same library.
pub proof fn scan_is_deterministic(a: Seq<DiskFile>, b: Seq<DiskFile>)
    requires
        a.len() == b.len(),
        forall|j: int| 0 <= j < a.len() ==> bytes_of(#[trigger] a[j]) == bytes_of(b[j]),
    ensures
        books_of(a) == books_of(b),
    decreases a.len(),
{
    if a.len() > 0 {
        let n = a.len() - 1;
        assert(bytes_of(a[n]) == bytes_of(b[n]));
        assert(book_of_file(a.last()) == book_of_file(b.last()));
        let (ra, rb) = (a.drop_last(), b.drop_last());
        assert forall|j: int| 0 <= j < ra.len() implies bytes_of(#[trigger] ra[j]) == bytes_of(rb[j]) by {
            assert(ra[j] == a[j]);
            assert(rb[j] == b[j]);
        }
        scan_is_deterministic(ra, rb);
    }
}

/// One file that yields no book costs exactly that book: the library holds the
/// books of all the other files, one for each, in their order.
pub proof fn one_bad_file_is_skipped(files: Seq<DiskFile>, k: int)
    requires
        0 <= k < files.len(),
        book_of_file(files[k]) is None,
        forall|j: int| 0 <= j < files.len() && j != k ==> (#[trigger] book_of_file(files[j])) is Some,
    ensures
        books_of(files) == books_of(files.remove(k)),
        books_of(files).len() == files.len() - 1,
{
    let pre = files.subrange(0, k);
    let post = files.subrange(k + 1, files.len() as int);
    let mid = seq![files[k]];
    assert(files =~= pre + mid + post);
    assert(files.remove(k) =~= pre + post);
    books_of_concat(pre + mid, post);
    books_of_concat(pre, mid);
    books_of_concat(pre, post);
    assert(mid.drop_last() =~= Seq::<DiskFile>::empty());
    assert(mid.last() == files[k]);
    assert(books_of(mid.drop_last()) =~= Seq::<BookView>::empty());
    assert(books_of(mid) =~= Seq::<BookView>::empty());
    assert forall|j: int| 0 <= j < (pre + post).len() implies (#[trigger] book_of_file((pre + post)[j])) is Some by {
        if j < k {
            assert((pre + post)[j] == files[j]);
        } else {
            assert((pre + post)[j] == files[j + 1]);
        }
    }
    books_of_all_readable(pre + post);
}

/// Whether the path names a book container.
pub fn is_book_path(path: &str) -> (r: bool)
    ensures
        r == has_book_extension(path@),
{
    let n = path.unicode_len();
    if n < 6 {
        return false;
    }
    let c0 = path.get_char(n - 6);
    let c1 = path.get_char(n - 5);
    let c2 = path.get_char(n - 4);
    let c3 = path.get_char(n - 3);
    let c4 = path.get_char(n - 2);
    let c5 = path.get_char(n - 1);
    c0 != '/' && c1 == '.' && (c2 == 'm' || c2 == 'M') && (c3 == 'o' || c3 == 'O') && (c4 == 'b'
        || c4 == 'B') && (c5 == 'i' || c5 == 'I')
}

/// Keeps the paths that name book containers, in their order.
pub fn candidate_paths(paths: &Vec<String>) -> (r: Vec<String>)
    ensures
        paths_view(r@) == candidates_of(paths_view(paths@)),
{
    let mut out: Vec<String> = Vec::new();
    let mut i: usize = 0;
    while i < paths.len()
        invariant
            i <= paths@.len(),
            paths_view(out@) == candidates_of(paths_view(paths@.subrange(0, i as int))),
        decreases paths@.len() - i,
    {
        let p = &paths[i];
        proof {
            let pre = paths@.subrange(0, i as int);
            let next = paths@.subrange(0, i + 1);
            assert(next.drop_last() =~= pre);
            assert(paths_view(next).drop_last() =~= paths_view(pre));
            assert(paths_view(next).last() == p@);
        }
        if is_book_path(p.as_str()) {
            out.push(p.clone());
            assert(paths_view(out@) =~= paths_view(out@).drop_last().push(p@));
        }
        i = i + 1;
    }
    assert(paths@.subrange(0, paths@.len() as int) =~= paths@);
    out
}

/// Builds the library from the files found under the device root.
///
/// A missing root gives an empty library. Otherwise every file that yields a
/// book contributes it, in the files' order, and every other file is reported
/// among the failures; no file stops the others from being read.
pub fn scan(root_exists: bool, files: &Vec<DiskFile>) -> (r: ScanOutcome)
    ensures
        !root_exists ==> r.library.books@.len() == 0 && r.failures@.len() == 0,
        root_exists ==> books_view(r.library.books@) == books_of(files@),
        root_exists ==> error_paths(r.failures@) == failed_paths(files@),
        root_exists ==> r.failures@.len() + books_of(files@).len() == files@.len(),
{
    let mut books: Vec<KindleBook> = Vec::new();
    let mut failures: Vec<ExtractError> = Vec::new();
    if !root_exists {
        return ScanOutcome { library: KindleDevice { books }, failures };
    }
    let mut i: usize = 0;
    while i < files.len()
        invariant
            i <= files@.len(),
            books_view(books@) == books_of(files@.subrange(0, i as int)),
            error_paths(failures@) == failed_paths(files@.subrange(0, i as int)),
            failures@.len() + books@.len() == i,
        decreases files@.len() - i,
    {
        let f = &files[i];
        proof {
            let pre = files@.subrange(0, i as int);
            let next = files@.subrange(0, i + 1);
            assert(next.drop_last() =~= pre);
            assert(next.last() == *f);
        }
        match extract(f) {
            Ok(book) => {
                books.push(book);
                assert(books_view(books@) =~= books_view(books@).drop_last().push(books@.last()@));
            },
            Err(e) => {
                failures.push(e);
                assert(error_paths(failures@) =~= error_paths(failures@).drop_last().push(
                    f.path@));
            },
        }
        i = i + 1;
    }
    assert(files@.subrange(0, files@.len() as int) =~= files@);
    ScanOutcome { library: KindleDevice { books }, failures }
}

} // verus!
