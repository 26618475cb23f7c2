//! A small ambient-information device core: it derives a compact five-slot
//! weather summary from provider data, composes four fixed-width display
//! rows from that summary plus a live clock, and drives the periodic
//! fetch / compose / render / shutdown state machines.
//!
//! All I/O (the HTTP fetch, the character display, the terminal, signal
//! handling) lives with the surrounding program; this crate holds the data
//! model, the formatting, and every scheduling decision, each with a proved
//! contract.

use vstd::prelude::*;

pub mod lcd_renderer;
pub mod owm;
pub mod shutdown_monitor;
pub mod source;
pub mod stdout_renderer;
pub mod weather;

verus! {

/// A text row that is guaranteed never to exceed the render target's
/// fixed width of 20 visible characters.
pub struct LimitedString {
    s: String,
}

impl View for LimitedString {
    type V = Seq<char>;

    closed spec fn view(&self) -> Seq<char> {
        self.s@
    }
}

impl LimitedString {
    /// The row never exceeds the target geometry.
    pub closed spec fn wf(&self) -> bool {
        self.s@.len() <= 20
    }

    /// Accepts a string of at most 20 characters, rejects a longer one.
    pub fn from_str(s: &str) -> (r: Result<LimitedString, ()>)
        ensures
            r is Ok <==> s@.len() <= 20,
            r matches Ok(ls) ==> ls@ == s@ && ls.wf(),
    {
        let n = s.unicode_len();
        if n > 20 {
            Err(())
        } else {
            Ok(LimitedString { s: String::from_str(s) })
        }
    }

    /// Wraps a string already proved to fit the row width.
    pub(crate) fn from_string(s: String) -> (r: LimitedString)
        requires
            s@.len() <= 20,
        ensures
            r@ == s@,
            r.wf(),
    {
        LimitedString { s }
    }

    pub fn as_str(&self) -> (r: &str)
        ensures
            r@ == self@,
    {
        self.s.as_str()
    }
}

impl Default for LimitedString {
    /// An empty row.
    fn default() -> (r: Self)
        ensures
            r@ == Seq::<char>::empty(),
            r.wf(),
    {
        LimitedString { s: String::new() }
    }
}

/// The complete display content: exactly four rows, none wider than the
/// render target's 20 columns.
pub struct Text {
    pub rows: [LimitedString; 4],
}

impl View for Text {
    type V = Seq<Seq<char>>;

    open spec fn view(&self) -> Seq<Seq<char>> {
        seq![self.rows@[0]@, self.rows@[1]@, self.rows@[2]@, self.rows@[3]@]
    }
}

impl Text {
    /// Every row respects the target geometry.
    pub open spec fn wf(&self) -> bool {
        forall|i: int| 0 <= i < 4 ==> #[trigger] self.rows@[i]@.len() <= 20
    }
}

impl Default for Text {
    /// Four empty rows.
    fn default() -> (r: Self)
        ensures
            forall|i: int| 0 <= i < 4 ==> #[trigger] r@[i] == Seq::<char>::empty(),
            r.wf(),
    {
        Text {
            rows: [
                LimitedString::default(),
                LimitedString::default(),
                LimitedString::default(),
                LimitedString::default(),
            ],
        }
    }
}

/// A transient failure of the render target: the write did not take, and
/// the dispatcher will simply try again on its next tick.
#[derive(Clone, Copy, PartialEq, Eq, Structural, Debug)]
pub struct RenderError;

} // verus!
