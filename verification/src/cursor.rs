//! Pagination cursor, denoted by a cursor ID.
//!
//! In order to create a cursor, simply call `Cursor::new()`. This will set
//! the cursor ID to `CREATE`, which asks the server to start pagination.
//! Once a request containing the cursor is sent, the server returns a new
//! cursor ID in a response header. If there are no more results, the cursor
//! ID will be `CLOSED`.

use vstd::prelude::*;

verus! {

/// The cursor id of a freshly created cursor: the request to the server to
/// open a pagination cursor.
pub open spec fn created_id() -> Seq<char> {
    "CREATE"@
}

/// The cursor id the server answers with when there are no more results.
pub open spec fn closed_id() -> Seq<char> {
    "CLOSED"@
}

/// Pagination cursor, denoted by a cursor ID.
#[derive(Clone, Debug)]
pub struct Cursor {
    /// The cursor ID.
    ///
    /// Is `CREATE` if the cursor has just been created.
    /// Is `CLOSED` if there are no more results.
    pub cursor_id: String,
    /// The maximum amount of results that will be returned.
    pub max_lines: u32,
}

/// Whether a cursor is closed: its id equals the closing sentinel.
pub open spec fn spec_closed(c: Cursor) -> bool {
    c.cursor_id@ == closed_id()
}

/// The two sentinels differ, so a freshly created cursor is never closed.
pub proof fn lemma_sentinels_differ()
    ensures
        created_id() != closed_id(),
{
    reveal_strlit("CREATE");
    reveal_strlit("CLOSED");
    assert(created_id()[1] == 'R');
    assert(closed_id()[1] == 'L');
}

/// The id of a freshly created cursor consists of ASCII characters, so a
/// fresh cursor can always be reported to the server.
pub proof fn lemma_created_id_ascii()
    ensures
        vstd::utf8::is_ascii_chars(created_id()),
{
    reveal_strlit("CREATE");
    assert forall|i: int| 0 <= i < created_id().len() implies '\0' <= #[trigger] created_id()[i]
        <= '\u{7f}' by {
        if i == 0 {
            assert(created_id()[0] == 'C');
        } else if i == 1 {
            assert(created_id()[1] == 'R');
        } else if i == 2 {
            assert(created_id()[2] == 'E');
        } else if i == 3 {
            assert(created_id()[3] == 'A');
        } else if i == 4 {
            assert(created_id()[4] == 'T');
        } else {
            assert(created_id()[5] == 'E');
        }
    }
}

impl Cursor {
    /// Creates a new cursor.
    pub fn new(max_lines: u32) -> (r: Cursor)
        ensures
            r.cursor_id@ == created_id(),
            r.max_lines == max_lines,
            !spec_closed(r),
    {
        proof {
            lemma_sentinels_differ();
        }
        Cursor { cursor_id: "CREATE".to_owned(), max_lines }
    }

    /// Returns whether the cursor is closed.
    pub fn closed(&self) -> (r: bool)
        ensures
            r == spec_closed(*self),
    {
        let sentinel: String = "CLOSED".to_owned();
        self.cursor_id == sentinel
    }

    /// Sets the cursor ID.
    pub fn set_cursor_id(&mut self, cursor_id: String)
        ensures
            final(self).cursor_id@ == cursor_id@,
            final(self).max_lines == old(self).max_lines,
            spec_closed(*final(self)) <==> cursor_id@ == closed_id(),
    {
        self.cursor_id = cursor_id;
    }
}

impl Default for Cursor {
    /// A cursor that has just been created, with the default page size.
    fn default() -> (r: Cursor)
        ensures
            r.cursor_id@ == created_id(),
            r.max_lines == 500,
            !spec_closed(r),
    {
        Cursor::new(500)
    }
}

/// Law: a freshly created cursor is never reported closed; a cursor
/// advanced to the closing sentinel is always reported closed; a cursor
/// advanced to any other id is never reported closed.
pub proof fn lemma_cursor_states(c: Cursor)
    ensures
        c.cursor_id@ == created_id() ==> !spec_closed(c),
        c.cursor_id@ == closed_id() ==> spec_closed(c),
        c.cursor_id@ != closed_id() ==> !spec_closed(c),
{
    lemma_sentinels_differ();
}

} // verus!
