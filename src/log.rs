use vstd::prelude::*;

verus! {

/// The ordered, append-only sequence of display lines. Insertion order is
/// display order.
pub struct ChatLog {
    lines: Vec<String>,
}

impl View for ChatLog {
    type V = Seq<Seq<char>>;

    closed spec fn view(&self) -> Seq<Seq<char>> {
        self.lines@.map_values(|s: String| s@)
    }
}

impl ChatLog {
    /// An empty log.
    pub fn new() -> (r: ChatLog)
        ensures
            r@ == Seq::<Seq<char>>::empty(),
    {
        let r = ChatLog { lines: Vec::new() };
        assert(r@ =~= Seq::<Seq<char>>::empty());
        r
    }

    /// Appends one line at the end.
    pub fn append(&mut self, line: String)
        ensures
            final(self)@ == old(self)@.push(line@),
    {
        self.lines.push(line);
        assert(final(self)@ =~= old(self)@.push(line@));
    }

    /// The number of lines.
    pub fn len(&self) -> (r: usize)
        ensures
            r == self@.len(),
    {
        self.lines.len()
    }

    /// Whether the log holds no line.
    pub fn is_empty(&self) -> (r: bool)
        ensures
            r == (self@.len() == 0),
    {
        self.lines.len() == 0
    }

    /// The line at position `i`.
    pub fn line(&self, i: usize) -> (r: &str)
        requires
            i < self@.len(),
        ensures
            r@ == self@[i as int],
    {
        self.lines[i].as_str()
    }

    /// A copy of every line, in order, for display.
    pub fn lines(&self) -> (r: Vec<String>)
        ensures
            r@.map_values(|s: String| s@) == self@,
    {
        let mut r: Vec<String> = Vec::new();
        let mut i: usize = 0;
        while i < self.lines.len()
            invariant
                i <= self.lines@.len(),
                r@.len() == i,
                forall|j: int| 0 <= j < i ==> #[trigger] r@[j]@ == self.lines@[j]@,
            decreases self.lines@.len() - i,
        {
            let s = String::from_str(self.lines[i].as_str());
            r.push(s);
            i = i + 1;
        }
        assert(r@.map_values(|s: String| s@) =~= self@);
        r
    }
}

} // verus!
