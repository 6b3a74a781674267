//! Ledger accounts and their kinds.

use vstd::prelude::*;
use vstd::string::StringExecFns;
use std::str::FromStr;

verus! {

/// `str`'s `eq` tells whether two strings hold the same characters.
pub assume_specification[ <str as PartialEq>::eq ](a: &str, b: &str) -> (same: bool)
    ensures
        same == (a@ == b@),
;

/// The kind of an account.
#[derive(Debug, Clone, Copy, PartialEq, Eq, Structural)]
pub enum AccountType {
    Bank,
    Cash,
    CreditCard,
    Investment,
    AssetAccount,
    LiabilityAccount,
}

/// The error of reading an account type from a text that names none.
#[derive(Default, Debug)]
pub struct ParseAccountTypeErr();

impl ParseAccountTypeErr {
    /// What went wrong, in words.
    pub fn message(&self) -> (text: &'static str)
        ensures
            text@ == "Can't parse AccountType"@,
    {
        "Can't parse AccountType"
    }
}

/// The account type that `text` is the name of, if it is the name of one.
pub open spec fn parsed(text: Seq<char>) -> Option<AccountType> {
    if text == AccountType::Bank.name() {
        Some(AccountType::Bank)
    } else if text == AccountType::Cash.name() {
        Some(AccountType::Cash)
    } else if text == AccountType::CreditCard.name() {
        Some(AccountType::CreditCard)
    } else if text == AccountType::Investment.name() {
        Some(AccountType::Investment)
    } else if text == AccountType::AssetAccount.name() {
        Some(AccountType::AssetAccount)
    } else if text == AccountType::LiabilityAccount.name() {
        Some(AccountType::LiabilityAccount)
    } else {
        None
    }
}

impl AccountType {
    /// The type's name, as `parse` reads it.
    pub open spec fn name(self) -> Seq<char> {
        match self {
            AccountType::Bank => "Bank"@,
            AccountType::Cash => "Cash"@,
            AccountType::CreditCard => "CreditCard"@,
            AccountType::Investment => "Investment"@,
            AccountType::AssetAccount => "AssetAccount"@,
            AccountType::LiabilityAccount => "LiabilityAccount"@,
        }
    }

    /// The short tag that stands for the type in a record.
    pub open spec fn tag(self) -> Seq<char> {
        match self {
            AccountType::Bank => "Bank"@,
            AccountType::Cash => "Cash"@,
            AccountType::CreditCard => "CCard"@,
            AccountType::Investment => "Invst"@,
            AccountType::AssetAccount => "Oth A"@,
            AccountType::LiabilityAccount => "Oth L"@,
        }
    }

    /// The type's name, as `parse` reads it.
    pub fn long_form_name(&self) -> (text: &'static str)
        ensures
            text@ == self.name(),
    {
        match self {
            AccountType::Bank => "Bank",
            AccountType::Cash => "Cash",
            AccountType::CreditCard => "CreditCard",
            AccountType::Investment => "Investment",
            AccountType::AssetAccount => "AssetAccount",
            AccountType::LiabilityAccount => "LiabilityAccount",
        }
    }

    /// The short tag that stands for the type in a record.
    pub fn display_tag(&self) -> (text: &'static str)
        ensures
            text@ == self.tag(),
    {
        match self {
            AccountType::Bank => "Bank",
            AccountType::Cash => "Cash",
            AccountType::CreditCard => "CCard",
            AccountType::Investment => "Invst",
            AccountType::AssetAccount => "Oth A",
            AccountType::LiabilityAccount => "Oth L",
        }
    }

    /// Reads an account type from its name. Only the six names are read:
    /// not the short tags, and not another spelling of a name.
    pub fn parse(input: &str) -> (found: Result<AccountType, ParseAccountTypeErr>)
        ensures
            found matches Ok(account_type) ==> parsed(input@) == Some(account_type),
            found is Err <==> parsed(input@) is None,
    {
        if input.eq("Bank") {
            Ok(AccountType::Bank)
        } else if input.eq("Cash") {
            Ok(AccountType::Cash)
        } else if input.eq("CreditCard") {
            Ok(AccountType::CreditCard)
        } else if input.eq("Investment") {
            Ok(AccountType::Investment)
        } else if input.eq("AssetAccount") {
            Ok(AccountType::AssetAccount)
        } else if input.eq("LiabilityAccount") {
            Ok(AccountType::LiabilityAccount)
        } else {
            Err(ParseAccountTypeErr {  })
        }
    }

    /// Each name is read as the type that it is the name of.
    pub proof fn lemma_parse_name(self)
        ensures
            parsed(self.name()) == Some(self),
    {
        Self::lemma_names_differ();
    }

    /// A text is read as an account type exactly when it is that type's
    /// name: every other text is read as none.
    pub proof fn lemma_parsed_is_name(text: Seq<char>, account_type: AccountType)
        ensures
            parsed(text) == Some(account_type) <==> text == account_type.name(),
    {
        Self::lemma_names_differ();
    }

    /// No two account types have the same name.
    pub proof fn lemma_names_differ()
        ensures
            forall|a: AccountType, b: AccountType| a.name() == b.name() ==> a == b,
    {
        reveal_strlit("Bank");
        reveal_strlit("Cash");
        reveal_strlit("CreditCard");
        reveal_strlit("Investment");
        reveal_strlit("AssetAccount");
        reveal_strlit("LiabilityAccount");
        assert forall|a: AccountType, b: AccountType| a.name() == b.name() implies a == b by {
            if a != b {
                assert(a.name().len() != b.name().len() || a.name()[0] != b.name()[0]);
            }
        }
    }
}

impl Default for AccountType {
    fn default() -> (account_type: AccountType)
        ensures
            account_type == AccountType::Bank,
    {
        AccountType::Bank
    }
}

impl FromStr for AccountType {
    type Err = ParseAccountTypeErr;

    fn from_str(input: &str) -> (found: Result<AccountType, ParseAccountTypeErr>)
        ensures
            found matches Ok(account_type) ==> parsed(input@) == Some(account_type),
            found is Err <==> parsed(input@) is None,
    {
        AccountType::parse(input)
    }
}

/// What an account is: its name, its type and a description.
pub struct AccountView {
    pub name: Seq<char>,
    pub account_type: AccountType,
    pub description: Seq<char>,
}

impl AccountView {
    /// The account's record: a header line, the name, the type's tag and
    /// the line that ends a record. The description is not part of it.
    pub open spec fn rendered(self) -> Seq<char> {
        "!Account\nN"@ + self.name + "\nT"@ + self.account_type.tag() + "\n^\n"@
    }
}

/// A named account of the ledger.
#[derive(Debug)]
pub struct Account {
    name: String,
    account_type: AccountType,
    description: String,
}

impl View for Account {
    type V = AccountView;

    closed spec fn view(&self) -> AccountView {
        AccountView {
            name: self.name@,
            account_type: self.account_type,
            description: self.description@,
        }
    }
}

impl Account {
    /// An account of type `Bank` without a name or a description.
    pub fn new() -> (account: Account)
        ensures
            account@ == (AccountView {
                name: Seq::empty(),
                account_type: AccountType::Bank,
                description: Seq::empty(),
            }),
    {
        Account {
            name: String::new(),
            account_type: AccountType::Bank,
            description: String::new(),
        }
    }

    /// The account with the name `val`.
    pub fn name(self, val: &str) -> (account: Account)
        ensures
            account@ == (AccountView { name: val@, ..self@ }),
    {
        Account {
            name: val.to_owned(),
            account_type: self.account_type,
            description: self.description,
        }
    }

    /// The account with the description `val`.
    pub fn description(self, val: &str) -> (account: Account)
        ensures
            account@ == (AccountView { description: val@, ..self@ }),
    {
        Account {
            name: self.name,
            account_type: self.account_type,
            description: val.to_owned(),
        }
    }

    /// The account with the type `val`.
    pub fn account_type(self, val: AccountType) -> (account: Account)
        ensures
            account@ == (AccountView { account_type: val, ..self@ }),
    {
        Account { name: self.name, account_type: val, description: self.description }
    }

    /// The account's type.
    pub fn get_type(&self) -> (account_type: AccountType)
        ensures
            account_type == self@.account_type,
    {
        self.account_type
    }

    /// The finished account: the one that was built.
    pub fn build(self) -> (account: Account)
        ensures
            account@ == self@,
    {
        Account {
            name: self.name,
            description: self.description,
            account_type: self.account_type,
        }
    }

    /// The account's record.
    pub fn render(&self) -> (text: String)
        ensures
            text@ == self@.rendered(),
    {
        let mut text = "!Account\nN".to_owned();
        text.append(self.name.as_str());
        text.append("\nT");
        text.append(self.account_type.display_tag());
        text.append("\n^\n");
        text
    }
}

impl Default for Account {
    fn default() -> (account: Account)
        ensures
            account@ == (AccountView {
                name: Seq::empty(),
                account_type: AccountType::Bank,
                description: Seq::empty(),
            }),
    {
        Account::new()
    }
}

} // verus!
