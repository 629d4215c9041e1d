//! Book records: the optional-field patch and its merge rule, the outcomes of
//! store operations, and a store of books held in memory.
use vstd::prelude::*;

verus! {

/// A stored book.
#[derive(Debug, Clone)]
pub struct Book {
    pub id: u128,
    pub title: String,
    pub author: String,
}

/// The mathematical content of a [`Book`].
pub struct BookView {
    pub id: u128,
    pub title: Seq<char>,
    pub author: Seq<char>,
}

impl View for Book {
    type V = BookView;

    open spec fn view(&self) -> BookView {
        BookView { id: self.id, title: self.title@, author: self.author@ }
    }
}

/// The fields of a book to be created; the store assigns the id.
#[derive(Debug, Clone)]
pub struct NewBook {
    pub title: String,
    pub author: String,
}

/// A partial update of a book: only the fields present are changed.
#[derive(Debug, Clone)]
pub struct UpdateBook {
    pub title: Option<String>,
    pub author: Option<String>,
}

/// The mathematical content of an [`UpdateBook`].
pub struct PatchView {
    pub title: Option<Seq<char>>,
    pub author: Option<Seq<char>>,
}

impl View for UpdateBook {
    type V = PatchView;

    open spec fn view(&self) -> PatchView {
        PatchView {
            title: match self.title {
                Some(s) => Some(s@),
                None => None,
            },
            author: match self.author {
                Some(s) => Some(s@),
                None => None,
            },
        }
    }
}

/// `b` with the fields present in `p` replaced.
pub open spec fn patched(b: BookView, p: PatchView) -> BookView {
    BookView {
        id: b.id,
        title: match p.title {
            Some(n) => n,
            None => b.title,
        },
        author: match p.author {
            Some(a) => a,
            None => b.author,
        },
    }
}

impl UpdateBook {
    /// The patch changes no field.
    pub fn is_empty(&self) -> (r: bool)
        ensures
            r == (self@.title is None && self@.author is None),
            r ==> forall|b: BookView| #[trigger] patched(b, self@) == b,
    {
        self.title.is_none() && self.author.is_none()
    }

    /// Applies the patch: present fields replace those of `book`, the others stay.
    pub fn apply_to(self, book: Book) -> (r: Book)
        ensures
            r@ == patched(book@, self@),
    {
        let Book { id, title, author } = book;
        let title = match self.title {
            Some(n) => n,
            None => title,
        };
        let author = match self.author {
            Some(a) => a,
            None => author,
        };
        Book { id, title, author }
    }
}

/// A patch that sets only the title leaves the author as it was, and the id too.
pub proof fn lemma_title_patch_keeps_author(b: BookView, title: Seq<char>)
    ensures
        patched(b, PatchView { title: Some(title), author: None }).author == b.author,
        patched(b, PatchView { title: Some(title), author: None }).title == title,
        patched(b, PatchView { title: Some(title), author: None }).id == b.id,
{
}

/// Applying a patch a second time changes nothing more, so repeating an
/// update of one id with one patch leaves the books as the first update left them.
pub proof fn lemma_patch_idempotent(s: Seq<BookView>, i: int, p: PatchView)
    requires
        0 <= i < s.len(),
    ensures
        patched(patched(s[i], p), p) == patched(s[i], p),
        s.update(i, patched(s[i], p)).update(
            i,
            patched(s.update(i, patched(s[i], p))[i], p),
        ) == s.update(i, patched(s[i], p)),
{
    let t = s.update(i, patched(s[i], p));
    assert(t.update(i, patched(t[i], p)) =~= t);
}

/// Why a store operation gave no record.
#[derive(Debug, Clone, Copy, PartialEq, Eq, Structural)]
pub enum RepoError {
    /// No record has the id: an expected outcome.
    NotFound,
    /// No connection could be had from the pool in time.
    PoolExhausted,
    /// The store failed or refused the statement.
    Store,
}

impl RepoError {
    /// The HTTP status that reports this error.
    pub fn status(&self) -> (r: u16)
        ensures
            r == (if *self == RepoError::NotFound { 404u16 } else { 500u16 }),
    {
        match self {
            RepoError::NotFound => 404,
            _ => 500,
        }
    }
}

/// A lookup that may find no row: no row is `NotFound`.
pub fn found<T>(r: Result<Option<T>, RepoError>) -> (out: Result<T, RepoError>)
    ensures
        match r {
            Ok(Some(t)) => out == Ok::<T, RepoError>(t),
            Ok(None) => out == Err::<T, RepoError>(RepoError::NotFound),
            Err(e) => out == Err::<T, RepoError>(e),
        },
{
    match r {
        Ok(Some(t)) => Ok(t),
        Ok(None) => Err(RepoError::NotFound),
        Err(e) => Err(e),
    }
}

/// A delete reported by its count of affected rows: none is `NotFound`.
pub fn deletion(r: Result<usize, RepoError>) -> (out: Result<(), RepoError>)
    ensures
        match r {
            Ok(n) => if n > 0 {
                out is Ok
            } else {
                out == Err::<(), RepoError>(RepoError::NotFound)
            },
            Err(e) => out == Err::<(), RepoError>(e),
        },
{
    match r {
        Ok(n) => if n > 0 {
            Ok(())
        } else {
            Err(RepoError::NotFound)
        },
        Err(e) => Err(e),
    }
}

/// Some book of `s` has the id.
pub open spec fn has_id(s: Seq<BookView>, id: u128) -> bool {
    exists|i: int| 0 <= i < s.len() && #[trigger] s[i].id == id
}

/// No two books of `s` share an id.
pub open spec fn unique_ids(s: Seq<BookView>) -> bool {
    forall|i: int, j: int| 0 <= i < s.len() && 0 <= j < s.len() && #[trigger] s[i].id == #[trigger] s[j].id ==> i == j
}

/// `after` is `before` without the one book whose id is `id`.
pub open spec fn deleted(before: Seq<BookView>, after: Seq<BookView>, id: u128) -> bool {
    exists|i: int| 0 <= i < before.len() && #[trigger] before[i].id == id && after == before.remove(i)
}

/// Books held in memory, in order of creation, with unique ids.
pub struct BookStore {
    books: Vec<Book>,
}

impl View for BookStore {
    type V = Seq<BookView>;

    closed spec fn view(&self) -> Seq<BookView> {
        self.books@.map_values(|b: Book| b@)
    }
}

impl BookStore {
    /// The store's invariant: ids are unique.
    pub open spec fn wf(&self) -> bool {
        unique_ids(self@)
    }

    /// An empty store.
    pub fn new() -> (r: BookStore)
        ensures
            r.wf(),
            r@ == Seq::<BookView>::empty(),
    {
        let r = BookStore { books: Vec::new() };
        proof {
            assert(r@ =~= Seq::<BookView>::empty());
        }
        r
    }

    /// Where the book with this id stands, if any.
    fn position(&self, id: u128) -> (r: Option<usize>)
        requires
            self.wf(),
        ensures
            r is Some ==> r->Some_0 < self@.len() && self@[r->Some_0 as int].id == id,
            r is None ==> !has_id(self@, id),
    {
        let mut i: usize = 0;
        while i < self.books.len()
            invariant
                i <= self.books@.len(),
                self@.len() == self.books@.len(),
                forall|j: int| 0 <= j < i ==> #[trigger] self@[j].id != id,
            decreases self.books@.len() - i,
        {
            if self.books[i].id == id {
                return Some(i);
            }
            i = i + 1;
        }
        None
    }

    /// All books, in storage order.
    pub fn list_all(&self) -> (r: Vec<Book>)
        ensures
            r@.map_values(|b: Book| b@) == self@,
    {
        let mut out: Vec<Book> = Vec::new();
        let mut i: usize = 0;
        while i < self.books.len()
            invariant
                i <= self.books@.len(),
                self@.len() == self.books@.len(),
                out@.map_values(|b: Book| b@) == self@.take(i as int),
            decreases self.books@.len() - i,
        {
            let b = Book {
                id: self.books[i].id,
                title: self.books[i].title.clone(),
                author: self.books[i].author.clone(),
            };
            let ghost prev = out@;
            proof {
                assert(b@ == self@[i as int]);
            }
            out.push(b);
            proof {
                assert(out@ == prev.push(b));
                assert(out@.map_values(|b: Book| b@) =~= prev.map_values(|b: Book| b@).push(b@));
                assert(out@.map_values(|b: Book| b@) =~= self@.take(i + 1));
            }
            i = i + 1;
        }
        proof {
            assert(self@.take(i as int) =~= self@);
        }
        out
    }

    /// The book with this id, or `NotFound`.
    pub fn get(&self, id: u128) -> (r: Result<Book, RepoError>)
        requires
            self.wf(),
        ensures
            !has_id(self@, id) ==> r == Err::<Book, RepoError>(RepoError::NotFound),
            has_id(self@, id) ==> r is Ok && exists|i: int|
                0 <= i < self@.len() && #[trigger] self@[i].id == id && r->Ok_0@ == self@[i],
    {
        match self.position(id) {
            None => Err(RepoError::NotFound),
            Some(i) => {
                let b = Book {
                    id: self.books[i].id,
                    title: self.books[i].title.clone(),
                    author: self.books[i].author.clone(),
                };
                Ok(b)
            },
        }
    }

    /// Adds a book under `id`; an id already taken is refused as a store error,
    /// as a uniqueness constraint would refuse it.
    pub fn create(&mut self, id: u128, new: NewBook) -> (r: Result<Book, RepoError>)
        requires
            old(self).wf(),
        ensures
            final(self).wf(),
            has_id(old(self)@, id) ==> r == Err::<Book, RepoError>(RepoError::Store)
                && final(self)@ == old(self)@,
            !has_id(old(self)@, id) ==> r is Ok && r->Ok_0@ == (BookView {
                id,
                title: new.title@,
                author: new.author@,
            }) && final(self)@ == old(self)@.push(r->Ok_0@),
    {
        if self.position(id).is_some() {
            return Err(RepoError::Store);
        }
        let stored = Book { id, title: new.title.clone(), author: new.author.clone() };
        let b = Book { id, title: new.title, author: new.author };
        self.books.push(stored);
        proof {
            assert(self@ =~= old(self)@.push(b@));
            assert forall|i: int, j: int|
                0 <= i < self@.len() && 0 <= j < self@.len() && #[trigger] self@[i].id
                    == #[trigger] self@[j].id implies i == j by {
                if i < old(self)@.len() && j == old(self)@.len() {
                    assert(old(self)@[i].id == id);
                }
                if j < old(self)@.len() && i == old(self)@.len() {
                    assert(old(self)@[j].id == id);
                }
            }
        }
        Ok(b)
    }

    /// Applies `patch` to the book with this id; `NotFound`, with nothing
    /// written, where there is none.
    pub fn update(&mut self, id: u128, patch: UpdateBook) -> (r: Result<Book, RepoError>)
        requires
            old(self).wf(),
        ensures
            final(self).wf(),
            !has_id(old(self)@, id) ==> r == Err::<Book, RepoError>(RepoError::NotFound)
                && final(self)@ == old(self)@,
            has_id(old(self)@, id) ==> r is Ok && exists|i: int|
                0 <= i < old(self)@.len() && #[trigger] old(self)@[i].id == id && r->Ok_0@
                    == patched(old(self)@[i], patch@) && final(self)@ == old(self)@.update(
                    i,
                    r->Ok_0@,
                ),
    {
        match self.position(id) {
            None => Err(RepoError::NotFound),
            Some(i) => {
                let current = Book {
                    id: self.books[i].id,
                    title: self.books[i].title.clone(),
                    author: self.books[i].author.clone(),
                };
                let b = patch.apply_to(current);
                let stored = Book { id: b.id, title: b.title.clone(), author: b.author.clone() };
                self.books.set(i, stored);
                proof {
                    assert(self@ =~= old(self)@.update(i as int, b@));
                    assert forall|x: int, y: int|
                        0 <= x < self@.len() && 0 <= y < self@.len() && #[trigger] self@[x].id
                            == #[trigger] self@[y].id implies x == y by {
                        assert(self@[x].id == old(self)@[x].id);
                        assert(self@[y].id == old(self)@[y].id);
                    }
                }
                Ok(b)
            },
        }
    }

    /// Removes the book with this id; `NotFound`, with nothing removed, where
    /// there is none. Either way no book has the id afterwards.
    pub fn delete(&mut self, id: u128) -> (r: Result<(), RepoError>)
        requires
            old(self).wf(),
        ensures
            final(self).wf(),
            !has_id(old(self)@, id) ==> r == Err::<(), RepoError>(RepoError::NotFound)
                && final(self)@ == old(self)@,
            has_id(old(self)@, id) ==> r is Ok && deleted(old(self)@, final(self)@, id),
            !has_id(final(self)@, id),
    {
        match self.position(id) {
            None => Err(RepoError::NotFound),
            Some(i) => {
                self.books.remove(i);
                proof {
                    assert(self@ =~= old(self)@.remove(i as int));
                    assert forall|x: int, y: int|
                        0 <= x < self@.len() && 0 <= y < self@.len() && #[trigger] self@[x].id
                            == #[trigger] self@[y].id implies x == y by {
                        let ox = if x < i { x } else { x + 1 };
                        let oy = if y < i { y } else { y + 1 };
                        assert(self@[x].id == old(self)@[ox].id);
                        assert(self@[y].id == old(self)@[oy].id);
                    }
                    assert(old(self)@[i as int].id == id);
                    lemma_deleted_id_absent(old(self)@, self@, id);
                }
                Ok(())
            },
        }
    }
}

/// Once the book with an id is deleted from a store with unique ids, no book
/// has that id, so a lookup of it finds nothing.
pub proof fn lemma_deleted_id_absent(before: Seq<BookView>, after: Seq<BookView>, id: u128)
    requires
        unique_ids(before),
        deleted(before, after, id),
    ensures
        !has_id(after, id),
{
    let i = choose|i: int| 0 <= i < before.len() && #[trigger] before[i].id == id && after == before.remove(i);
    if has_id(after, id) {
        let k = choose|k: int| 0 <= k < after.len() && #[trigger] after[k].id == id;
        let ok = if k < i { k } else { k + 1 };
        assert(after[k] == before[ok]);
        assert(before[ok].id == before[i].id);
    }
}

} // verus!
