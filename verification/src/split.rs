//! Splits: the parts of a transaction's amount, each with a category.

use vstd::prelude::*;
use vstd::string::StringExecFns;
use crate::text::{amount_text, push_amount};

verus! {

/// What a split is: a category, a memo and an amount in minor units.
pub struct SplitView {
    pub category: Seq<char>,
    pub memo: Seq<char>,
    pub amount: int,
}

impl SplitView {
    /// The split's three lines in a record: category, memo and amount.
    pub open spec fn rendered(self) -> Seq<char> {
        "S"@ + self.category + "\nE"@ + self.memo + "\n$"@ + amount_text(self.amount) + "\n"@
    }
}

/// One part of a transaction's amount.
#[derive(Debug)]
pub struct Split {
    category: String,
    memo: String,
    amount: i64,
}

impl View for Split {
    type V = SplitView;

    closed spec fn view(&self) -> SplitView {
        SplitView { category: self.category@, memo: self.memo@, amount: self.amount as int }
    }
}

impl Clone for Split {
    fn clone(&self) -> (split: Split)
        ensures
            split@ == self@,
    {
        Split { category: self.category.clone(), memo: self.memo.clone(), amount: self.amount }
    }
}

impl Split {
    /// A split of nothing, without a category or a memo.
    pub fn new() -> (split: Split)
        ensures
            split@ == (SplitView { category: Seq::empty(), memo: Seq::empty(), amount: 0 }),
    {
        Split { category: String::new(), memo: String::new(), amount: 0 }
    }

    /// The split with the category `val`.
    pub fn category(self, val: &str) -> (split: Split)
        ensures
            split@ == (SplitView { category: val@, ..self@ }),
    {
        Split { category: val.to_owned(), memo: self.memo, amount: self.amount }
    }

    /// The split with the memo `val`.
    pub fn memo(self, val: &str) -> (split: Split)
        ensures
            split@ == (SplitView { memo: val@, ..self@ }),
    {
        Split { category: self.category, memo: val.to_owned(), amount: self.amount }
    }

    /// The split with the amount `val`, in minor units.
    pub fn amount(self, val: i64) -> (split: Split)
        ensures
            split@ == (SplitView { amount: val as int, ..self@ }),
    {
        Split { category: self.category, memo: self.memo, amount: val }
    }

    /// The finished split: the one that was built.
    pub fn build(self) -> (split: Split)
        ensures
            split@ == self@,
    {
        Split { category: self.category, memo: self.memo, amount: self.amount }
    }

    /// The split's amount, in minor units.
    pub fn minor_units(&self) -> (amount: i64)
        ensures
            amount == self@.amount,
    {
        self.amount
    }

    /// Appends the split's three lines.
    pub fn render_into(&self, out: &mut String)
        ensures
            final(out)@ == old(out)@ + self@.rendered(),
    {
        out.append("S");
        out.append(self.category.as_str());
        out.append("\nE");
        out.append(self.memo.as_str());
        out.append("\n$");
        push_amount(out, self.amount);
        out.append("\n");
        assert(out@ =~= old(out)@ + self@.rendered());
    }

    /// The split's three lines.
    pub fn render(&self) -> (text: String)
        ensures
            text@ == self@.rendered(),
    {
        let mut text = String::new();
        self.render_into(&mut text);
        assert(text@ =~= self@.rendered());
        text
    }
}

impl Default for Split {
    fn default() -> (split: Split)
        ensures
            split@ == (SplitView { category: Seq::empty(), memo: Seq::empty(), amount: 0 }),
    {
        Split::new()
    }
}

} // verus!
