use vstd::prelude::*;

verus! {

/// The words that label the windows, in order.
pub open spec fn standard_words() -> Seq<Seq<char>> {
    seq![
        "hello"@,
        "there"@,
        "please"@,
        "follow"@,
        "me"@,
        "on"@,
        "instagram"@,
        "i"@,
        "need"@,
        "your"@,
        "clicks"@,
        "and"@,
        "likes"@,
        "and"@,
        "shares"@,
        "and"@,
        "actually"@,
        "some"@,
        "comments"@,
        "would"@,
        "also"@,
        "be"@,
        "wonderful"@,
        "thank"@,
        "you"@,
        "very"@,
        "much"@,
    ]
}

/// An endless cycle over a fixed list of words: `cursor` is the next word's index.
pub struct PhraseCycle {
    pub words: Vec<String>,
    pub cursor: usize,
}

impl PhraseCycle {
    pub open spec fn wf(&self) -> bool {
        &&& self.words.len() > 0
        &&& self.cursor < self.words.len()
    }

    pub open spec fn spec_words(&self) -> Seq<Seq<char>> {
        self.words@.map_values(|w: String| w@)
    }

    /// The word that comes next.
    pub open spec fn spec_current(&self) -> Seq<char> {
        self.words@[self.cursor as int]@
    }

    /// The cursor after one word, back at the start after the last.
    pub open spec fn spec_next_cursor(&self) -> usize {
        ((self.cursor + 1) % (self.words.len() as int)) as usize
    }

    /// A cycle over `words` that starts at the first one.
    pub fn new(words: Vec<String>) -> (r: PhraseCycle)
        requires
            words.len() > 0,
        ensures
            r.words == words,
            r.cursor == 0,
            r.wf(),
    {
        PhraseCycle { words, cursor: 0 }
    }

    /// The cycle over `standard_words`, from the first.
    pub fn standard() -> (r: PhraseCycle)
        ensures
            r.spec_words() == standard_words(),
            r.cursor == 0,
            r.wf(),
    {
        let mut words: Vec<String> = Vec::new();
        words.push(String::from_str("hello"));
        words.push(String::from_str("there"));
        words.push(String::from_str("please"));
        words.push(String::from_str("follow"));
        words.push(String::from_str("me"));
        words.push(String::from_str("on"));
        words.push(String::from_str("instagram"));
        words.push(String::from_str("i"));
        words.push(String::from_str("need"));
        words.push(String::from_str("your"));
        words.push(String::from_str("clicks"));
        words.push(String::from_str("and"));
        words.push(String::from_str("likes"));
        words.push(String::from_str("and"));
        words.push(String::from_str("shares"));
        words.push(String::from_str("and"));
        words.push(String::from_str("actually"));
        words.push(String::from_str("some"));
        words.push(String::from_str("comments"));
        words.push(String::from_str("would"));
        words.push(String::from_str("also"));
        words.push(String::from_str("be"));
        words.push(String::from_str("wonderful"));
        words.push(String::from_str("thank"));
        words.push(String::from_str("you"));
        words.push(String::from_str("very"));
        words.push(String::from_str("much"));
        let r = PhraseCycle { words, cursor: 0 };
        assert(r.spec_words() =~= standard_words());
        r
    }

    pub fn len(&self) -> (r: usize)
        ensures
            r == self.words.len(),
    {
        self.words.len()
    }

    /// The word that comes next, without moving on.
    pub fn current(&self) -> (r: String)
        requires
            self.wf(),
        ensures
            r@ == self.spec_current(),
    {
        self.words[self.cursor].clone()
    }

    /// Moves on by one word, wrapping after the last.
    pub fn advance(&mut self)
        requires
            old(self).wf(),
        ensures
            final(self).words == old(self).words,
            final(self).cursor == old(self).spec_next_cursor(),
            final(self).wf(),
    {
        let n = self.words.len();
        if self.cursor + 1 == n {
            proof {
                vstd::arithmetic::div_mod::lemma_mod_self_0(n as int);
            }
            self.cursor = 0;
        } else {
            proof {
                vstd::arithmetic::div_mod::lemma_small_mod((self.cursor + 1) as nat, n as nat);
            }
            self.cursor = self.cursor + 1;
        }
    }

    /// The next word; the cycle moves on past it.
    pub fn next(&mut self) -> (r: String)
        requires
            old(self).wf(),
        ensures
            r@ == old(self).spec_current(),
            final(self).words == old(self).words,
            final(self).cursor == old(self).spec_next_cursor(),
            final(self).wf(),
    {
        let r = self.current();
        self.advance();
        r
    }
}

} // verus!
