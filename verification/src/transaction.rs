//! Transactions: an amount on a day in an account, whole or in splits.

use vstd::prelude::*;
use vstd::string::StringExecFns;
use crate::account::{Account, AccountView};
use crate::date::{Date, DateView};
use crate::split::{Split, SplitView};
use crate::text::{amount_text, push_amount};

verus! {

/// The sum of the amounts of `splits`.
pub open spec fn split_total(splits: Seq<SplitView>) -> int
    decreases splits.len(),
{
    if splits.len() == 0 {
        0
    } else {
        split_total(splits.drop_last()) + splits.last().amount
    }
}

/// The lines of `splits`, one split after the other.
pub open spec fn splits_text(splits: Seq<SplitView>) -> Seq<char>
    decreases splits.len(),
{
    if splits.len() == 0 {
        Seq::empty()
    } else {
        splits_text(splits.drop_last()) + splits.last().rendered()
    }
}

/// What each split of `splits` is, in their order.
pub open spec fn split_views(splits: Seq<Split>) -> Seq<SplitView> {
    splits.map_values(|split: Split| split@)
}

/// What a transaction is.
pub struct TransactionView {
    /// The account that the transaction belongs to.
    pub account: AccountView,
    /// The day of the transaction.
    pub date: DateView,
    /// The whole amount, in minor units.
    pub amount: int,
    pub payee: Seq<char>,
    pub memo: Seq<char>,
    /// The category of a transaction that has no splits.
    pub category: Seq<char>,
    pub cleared_status: Seq<char>,
    /// The parts of the amount, in the order in which they were added.
    pub splits: Seq<SplitView>,
}

impl TransactionView {
    /// Whether the transaction may be finished: it has no splits, so that
    /// its amount stands as it was set, or its amount is the sum of its
    /// splits.
    pub open spec fn balanced(self) -> bool {
        self.splits.len() == 0 || self.amount == split_total(self.splits)
    }

    /// The transaction's record: the account type's tag, the date, payee,
    /// memo, category, cleared status and whole amount, each on a line of
    /// its own, then the lines of the splits and the line that ends a
    /// record.
    pub open spec fn rendered(self) -> Seq<char> {
        self.head_text() + splits_text(self.splits) + "^\n"@
    }

    /// The lines of a record that come before those of the splits.
    pub open spec fn head_text(self) -> Seq<char> {
        "!Type:"@ + self.account.account_type.tag() + "\nD"@ + self.date.text() + "\nP"@
            + self.payee + "\nM"@ + self.memo + "\nL"@ + self.category + "\nC"@
            + self.cleared_status + "\nT"@ + amount_text(self.amount) + "\n"@
    }
}

/// Why a transaction could not be finished.
#[derive(Debug, Clone, Copy, PartialEq, Eq, Structural)]
pub enum TransactionError {
    /// The transaction has splits, and their sum is not its amount.
    InvariantViolation,
}

impl TransactionError {
    /// What went wrong, in words.
    pub fn message(&self) -> (text: &'static str)
        ensures
            text@ == "Sum of splits is not equal resulting amount"@,
    {
        "Sum of splits is not equal resulting amount"
    }
}

/// A sum of splits grows by the amount of a split that is added.
pub proof fn lemma_split_total_push(splits: Seq<SplitView>, split: SplitView)
    ensures
        split_total(splits.push(split)) == split_total(splits) + split.amount,
{
    assert(splits.push(split).drop_last() =~= splits);
}

/// The lines of splits grow by the lines of a split that is added.
pub proof fn lemma_splits_text_push(splits: Seq<SplitView>, split: SplitView)
    ensures
        splits_text(splits.push(split)) == splits_text(splits) + split.rendered(),
{
    assert(splits.push(split).drop_last() =~= splits);
}

/// The sum of the amounts of `splits`. It is exact: the sum of as many
/// `i64` as a slice can hold fits in an `i128`.
pub fn sum_of_splits(splits: &[Split]) -> (total: i128)
    ensures
        total == split_total(split_views(splits@)),
{
    let ghost views = split_views(splits@);
    let mut total: i128 = 0;
    let mut i: usize = 0;
    while i < splits.len()
        invariant
            0 <= i <= splits.len(),
            views == split_views(splits@),
            total == split_total(views.take(i as int)),
            i * i64::MIN <= total <= i * i64::MAX,
        decreases splits.len() - i,
    {
        let amount: i64 = splits[i].minor_units();
        proof {
            assert(views.take(i + 1) =~= views.take(i as int).push(views[i as int]));
            lemma_split_total_push(views.take(i as int), views[i as int]);
            assert((i + 1) * i64::MIN == i * i64::MIN + i64::MIN) by (nonlinear_arith);
            assert((i + 1) * i64::MAX == i * i64::MAX + i64::MAX) by (nonlinear_arith);
            assert(i * i64::MIN >= usize::MAX * i64::MIN) by (nonlinear_arith)
                requires
                    0 <= i <= usize::MAX,
            ;
            assert(i * i64::MAX <= usize::MAX * i64::MAX) by (nonlinear_arith)
                requires
                    0 <= i <= usize::MAX,
            ;
        }
        total = total + amount as i128;
        i = i + 1;
    }
    assert(views.take(i as int) =~= views);
    total
}

/// A copy of `splits`.
pub fn copy_of_splits(splits: &[Split]) -> (copy: Vec<Split>)
    ensures
        split_views(copy@) == split_views(splits@),
{
    let mut copy: Vec<Split> = Vec::new();
    let mut i: usize = 0;
    while i < splits.len()
        invariant
            0 <= i <= splits.len(),
            copy@.len() == i,
            forall|j: int| 0 <= j < i ==> (#[trigger] copy@[j])@ == splits@[j]@,
        decreases splits.len() - i,
    {
        copy.push(splits[i].clone());
        i = i + 1;
    }
    assert(split_views(copy@) =~= split_views(splits@));
    copy
}

/// One transaction of an account.
#[derive(Debug)]
pub struct Transaction<'a> {
    account: &'a Account,
    date: Date,
    amount: i64,
    payee: String,
    memo: String,
    category: String,
    cleared_status: String,
    splits: Vec<Split>,
}

impl<'a> View for Transaction<'a> {
    type V = TransactionView;

    closed spec fn view(&self) -> TransactionView {
        TransactionView {
            account: self.account@,
            date: self.date@,
            amount: self.amount as int,
            payee: self.payee@,
            memo: self.memo@,
            category: self.category@,
            cleared_status: self.cleared_status@,
            splits: split_views(self.splits@),
        }
    }
}

impl<'a> Transaction<'a> {
    /// A transaction of the account `acc`, dated today (in UTC), with an
    /// amount of nothing, no splits and every text empty. Which day today
    /// is depends on the clock.
    pub fn new(acc: &'a Account) -> (transaction: Transaction<'a>)
        ensures
            transaction@ == (TransactionView {
                account: acc@,
                date: transaction@.date,
                amount: 0,
                payee: Seq::empty(),
                memo: Seq::empty(),
                category: Seq::empty(),
                cleared_status: Seq::empty(),
                splits: Seq::empty(),
            }),
            transaction@.date.valid(),
            transaction@.amount == split_total(transaction@.splits),
    {
        let transaction = Transaction {
            account: acc,
            date: Date::today(),
            amount: 0,
            payee: String::new(),
            memo: String::new(),
            category: String::new(),
            cleared_status: String::new(),
            splits: Vec::new(),
        };
        assert(transaction@.splits =~= Seq::empty());
        transaction
    }

    /// The transaction on the day `val`.
    pub fn date(self, val: Date) -> (transaction: Transaction<'a>)
        ensures
            transaction@ == (TransactionView { date: val@, ..self@ }),
    {
        Transaction {
            account: self.account,
            date: val,
            amount: self.amount,
            payee: self.payee,
            memo: self.memo,
            category: self.category,
            cleared_status: self.cleared_status,
            splits: self.splits,
        }
    }

    /// The transaction with the amount `val`, in minor units. Its splits
    /// stay as they are.
    pub fn amount(self, val: i64) -> (transaction: Transaction<'a>)
        ensures
            transaction@ == (TransactionView { amount: val as int, ..self@ }),
    {
        Transaction {
            account: self.account,
            date: self.date,
            amount: val,
            payee: self.payee,
            memo: self.memo,
            category: self.category,
            cleared_status: self.cleared_status,
            splits: self.splits,
        }
    }

    /// The transaction with the payee `val`.
    pub fn payee(self, val: &str) -> (transaction: Transaction<'a>)
        ensures
            transaction@ == (TransactionView { payee: val@, ..self@ }),
    {
        Transaction {
            account: self.account,
            date: self.date,
            amount: self.amount,
            payee: val.to_owned(),
            memo: self.memo,
            category: self.category,
            cleared_status: self.cleared_status,
            splits: self.splits,
        }
    }

    /// The transaction with the memo `val`.
    pub fn memo(self, val: &str) -> (transaction: Transaction<'a>)
        ensures
            transaction@ == (TransactionView { memo: val@, ..self@ }),
    {
        Transaction {
            account: self.account,
            date: self.date,
            amount: self.amount,
            payee: self.payee,
            memo: val.to_owned(),
            category: self.category,
            cleared_status: self.cleared_status,
            splits: self.splits,
        }
    }

    /// The transaction with the category `val`.
    pub fn category(self, val: &str) -> (transaction: Transaction<'a>)
        ensures
            transaction@ == (TransactionView { category: val@, ..self@ }),
    {
        Transaction {
            account: self.account,
            date: self.date,
            amount: self.amount,
            payee: self.payee,
            memo: self.memo,
            category: val.to_owned(),
            cleared_status: self.cleared_status,
            splits: self.splits,
        }
    }

    /// The transaction with the cleared status `val`.
    pub fn cleared_status(self, val: &str) -> (transaction: Transaction<'a>)
        ensures
            transaction@ == (TransactionView { cleared_status: val@, ..self@ }),
    {
        Transaction {
            account: self.account,
            date: self.date,
            amount: self.amount,
            payee: self.payee,
            memo: self.memo,
            category: self.category,
            cleared_status: val.to_owned(),
            splits: self.splits,
        }
    }

    /// The transaction with the splits `val` in place of those it had, and
    /// with their sum as its amount. The sum has to fit in an `i64`:
    /// `sum_of_splits` tells whether it does.
    pub fn splits(self, val: &[Split]) -> (transaction: Transaction<'a>)
        requires
            i64::MIN <= split_total(split_views(val@)) <= i64::MAX,
        ensures
            transaction@ == (TransactionView {
                amount: split_total(split_views(val@)),
                splits: split_views(val@),
                ..self@
            }),
            transaction@.amount == split_total(transaction@.splits),
    {
        let total: i128 = sum_of_splits(val);
        Transaction {
            account: self.account,
            date: self.date,
            amount: total as i64,
            payee: self.payee,
            memo: self.memo,
            category: self.category,
            cleared_status: self.cleared_status,
            splits: copy_of_splits(val),
        }
    }

    /// The finished transaction, if it may be finished: where it has
    /// splits, their sum has to be its amount. A transaction without
    /// splits keeps the amount that it was given.
    pub fn build(self) -> (built: Result<Transaction<'a>, TransactionError>)
        ensures
            built is Ok <==> self@.balanced(),
            built matches Ok(transaction) ==> transaction@ == self@,
            built matches Err(error) ==> error == TransactionError::InvariantViolation,
    {
        if self.splits.len() > 0 && sum_of_splits(self.splits.as_slice()) != self.amount as i128 {
            Err(TransactionError::InvariantViolation)
        } else {
            Ok(
                Transaction {
                    account: self.account,
                    date: self.date,
                    amount: self.amount,
                    payee: self.payee,
                    memo: self.memo,
                    category: self.category,
                    cleared_status: self.cleared_status,
                    splits: self.splits,
                },
            )
        }
    }

    /// The transaction with a copy of the split `val` behind those it had,
    /// and with an amount that is greater by the split's. The new amount
    /// has to fit in an `i64`. An amount that was the sum of the splits
    /// stays so.
    pub fn with_split(self, val: &Split) -> (transaction: Transaction<'a>)
        requires
            i64::MIN <= self@.amount + val@.amount <= i64::MAX,
        ensures
            transaction@ == (TransactionView {
                amount: self@.amount + val@.amount,
                splits: self@.splits.push(val@),
                ..self@
            }),
            self@.amount == split_total(self@.splits) ==> transaction@.amount == split_total(
                transaction@.splits,
            ),
    {
        let ghost before = self@;
        let mut splits = self.splits;
        splits.push(val.clone());
        let transaction = Transaction {
            account: self.account,
            date: self.date,
            amount: self.amount + val.minor_units(),
            payee: self.payee,
            memo: self.memo,
            category: self.category,
            cleared_status: self.cleared_status,
            splits,
        };
        proof {
            assert(transaction@.splits =~= before.splits.push(val@));
            lemma_split_total_push(before.splits, val@);
        }
        transaction
    }

    /// The transaction's amount, in minor units.
    pub fn sum(&self) -> (amount: i64)
        ensures
            amount == self@.amount,
    {
        self.amount
    }

    /// The transaction's record.
    pub fn render(&self) -> (text: String)
        ensures
            text@ == self@.rendered(),
    {
        let mut text = "!Type:".to_owned();
        text.append(self.account.get_type().display_tag());
        text.append("\nD");
        text.append(self.date.render().as_str());
        text.append("\nP");
        text.append(self.payee.as_str());
        text.append("\nM");
        text.append(self.memo.as_str());
        text.append("\nL");
        text.append(self.category.as_str());
        text.append("\nC");
        text.append(self.cleared_status.as_str());
        text.append("\nT");
        push_amount(&mut text, self.amount);
        text.append("\n");
        assert(text@ =~= self@.head_text());
        let ghost views = self@.splits;
        let mut i: usize = 0;
        while i < self.splits.len()
            invariant
                0 <= i <= self.splits.len(),
                views == split_views(self.splits@),
                text@ == self@.head_text() + splits_text(views.take(i as int)),
            decreases self.splits.len() - i,
        {
            self.splits[i].render_into(&mut text);
            proof {
                assert(views.take(i + 1) =~= views.take(i as int).push(views[i as int]));
                lemma_splits_text_push(views.take(i as int), views[i as int]);
                assert(text@ =~= self@.head_text() + splits_text(views.take(i + 1)));
            }
            i = i + 1;
        }
        text.append("^\n");
        proof {
            assert(views.take(i as int) =~= views);
            assert(text@ =~= self@.rendered());
        }
        text
    }
}

} // verus!
