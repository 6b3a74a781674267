use chrono::{DateTime, Datelike, TimeZone, Utc};
use qif_generator::account::{Account, AccountType};
use qif_generator::date::Date;
use qif_generator::split::Split;
use qif_generator::transaction::{sum_of_splits, copy_of_splits, Transaction, TransactionError};

/// The day of a moment, as the library holds it.
fn day_of(moment: DateTime<Utc>) -> Date {
    Date::from_ymd(moment.year(), moment.month(), moment.day()).unwrap()
}

#[test]
fn transaction_transaction_format() {
    let a = Account::new().account_type(AccountType::Cash);
    let t = Transaction::new(&a)
        .date(day_of(Utc.with_ymd_and_hms(2020, 11, 28, 0, 0, 0).unwrap()))
        .category("testcat")
        .memo("testmemo")
        .amount(0)
        .build()
        .unwrap();

    assert_eq!(
        t.render(),
        r#"!Type:Cash
D11/28/2020
P
Mtestmemo
Ltestcat
C
T0.00
^
"#
    );
}

#[test]
fn transaction_split_transaction_format() {
    let a = Account::new().account_type(AccountType::Investment);

    let s1 = Split::new().category("Cat1").memo("Split1").amount(-1000);
    let s2 = Split::new().category("Cat2").memo("Split2").amount(-2000);

    let t = Transaction::new(&a)
        .date(day_of(Utc.with_ymd_and_hms(2020, 11, 28, 0, 0, 0).unwrap()))
        .category("testcat")
        .memo("testmemo")
        .with_split(&s1)
        .with_split(&s2)
        .build()
        .unwrap();

    assert_eq!(
        t.render(),
        r#"!Type:Invst
D11/28/2020
P
Mtestmemo
Ltestcat
C
T-30.00
SCat1
ESplit1
$-10.00
SCat2
ESplit2
$-20.00
^
"#
    );
}

#[test]
fn split_list_check() {
    let a = Account::new().account_type(AccountType::Investment);

    let s1 = Split::new().category("Cat1").memo("Split1").amount(-1000);
    let s2 = Split::new().category("Cat2").memo("Split2").amount(-2000);

    let splits = vec![s1, s2];

    let t = Transaction::new(&a)
        .date(day_of(Utc.with_ymd_and_hms(2020, 11, 28, 0, 0, 0).unwrap()))
        .category("testcat")
        .memo("testmemo")
        .splits(&splits)
        .build()
        .unwrap();

    assert_eq!(
        t.render(),
        r#"!Type:Invst
D11/28/2020
P
Mtestmemo
Ltestcat
C
T-30.00
SCat1
ESplit1
$-10.00
SCat2
ESplit2
$-20.00
^
"#
    );
}

#[test]
fn time_of_day_is_dropped() {
    let a = Account::new().account_type(AccountType::Bank);
    let late = day_of(Utc.with_ymd_and_hms(2020, 11, 28, 23, 59, 59).unwrap());
    let early = day_of(Utc.with_ymd_and_hms(2020, 11, 28, 0, 0, 0).unwrap());
    assert_eq!(late, early);
    let t = Transaction::new(&a).date(late).build().unwrap();
    assert_eq!(t.render(), "!Type:Bank\nD11/28/2020\nP\nM\nL\nC\nT0.00\n^\n");
}

#[test]
fn splits_added_one_by_one_set_the_amount() {
    let a = Account::new();
    let s1 = Split::new().category("Cat1").memo("Split1").amount(-1000);
    let s2 = Split::new().category("Cat2").memo("Split2").amount(-2000);
    let t = Transaction::new(&a).with_split(&s1).with_split(&s2).build().unwrap();
    assert_eq!(t.sum(), -3000);
}

#[test]
fn amount_that_disagrees_with_splits_is_refused() {
    let a = Account::new();
    let s1 = Split::new().category("Cat1").memo("Split1").amount(-1000);
    let s2 = Split::new().category("Cat2").memo("Split2").amount(-2000);
    let built = Transaction::new(&a).with_split(&s1).with_split(&s2).amount(-2999).build();
    assert_eq!(built.unwrap_err(), TransactionError::InvariantViolation);

    let built = Transaction::new(&a).amount(500).with_split(&s1).build();
    assert_eq!(built.unwrap_err(), TransactionError::InvariantViolation);

    let list = vec![s1, s2];
    let built = Transaction::new(&a).splits(&list).amount(1).build();
    assert_eq!(built.unwrap_err(), TransactionError::InvariantViolation);
}

#[test]
fn invariant_violation_message() {
    assert_eq!(
        TransactionError::InvariantViolation.message(),
        "Sum of splits is not equal resulting amount"
    );
}

#[test]
fn amount_without_splits_is_kept() {
    let a = Account::new();
    let t = Transaction::new(&a).amount(12345).build().unwrap();
    assert_eq!(t.sum(), 12345);
    let t = Transaction::new(&a).amount(-1).build().unwrap();
    assert_eq!(t.sum(), -1);
    let t = Transaction::new(&a).build().unwrap();
    assert_eq!(t.sum(), 0);
}

#[test]
fn amount_set_back_to_the_sum_is_accepted() {
    let a = Account::new();
    let s1 = Split::new().amount(700);
    let t = Transaction::new(&a).with_split(&s1).amount(1).amount(700).build().unwrap();
    assert_eq!(t.sum(), 700);
}

#[test]
fn split_list_replaces_earlier_splits_and_amount() {
    let a = Account::new().account_type(AccountType::CreditCard);
    let old = Split::new().category("Old").amount(9999);
    let s1 = Split::new().category("Cat1").memo("Split1").amount(-1000);
    let s2 = Split::new().category("Cat2").memo("Split2").amount(250);
    let t = Transaction::new(&a)
        .date(Date::from_ymd(2021, 1, 2).unwrap())
        .amount(42)
        .with_split(&old)
        .splits(&[s1, s2])
        .build()
        .unwrap();
    assert_eq!(t.sum(), -750);
    assert_eq!(
        t.render(),
        "!Type:CCard\nD01/02/2021\nP\nM\nL\nC\nT-7.50\nSCat1\nESplit1\n$-10.00\nSCat2\nESplit2\n$2.50\n^\n"
    );
}

#[test]
fn empty_split_list_gives_amount_zero() {
    let a = Account::new();
    let s1 = Split::new().amount(700);
    let t = Transaction::new(&a).amount(5).with_split(&s1).splits(&[]).build().unwrap();
    assert_eq!(t.sum(), 0);
}

#[test]
fn splits_are_rendered_in_the_order_added() {
    let a = Account::new();
    let s1 = Split::new().category("first").amount(1);
    let s2 = Split::new().category("second").amount(2);
    let s3 = Split::new().category("third").amount(3);
    let t = Transaction::new(&a)
        .date(Date::from_ymd(1999, 12, 31).unwrap())
        .with_split(&s3)
        .with_split(&s1)
        .with_split(&s2)
        .build()
        .unwrap();
    assert_eq!(
        t.render(),
        "!Type:Bank\nD12/31/1999\nP\nM\nL\nC\nT0.06\nSthird\nE\n$0.03\nSfirst\nE\n$0.01\nSsecond\nE\n$0.02\n^\n"
    );
}

#[test]
fn every_field_has_its_line() {
    let a = Account::new().name("Wallet").account_type(AccountType::LiabilityAccount);
    let t = Transaction::new(&a)
        .date(Date::from_ymd(2024, 2, 29).unwrap())
        .payee("Grocer")
        .memo("weekly")
        .category("Food")
        .cleared_status("X")
        .amount(-5)
        .build()
        .unwrap();
    assert_eq!(
        t.render(),
        "!Type:Oth L\nD02/29/2024\nPGrocer\nMweekly\nLFood\nCX\nT-0.05\n^\n"
    );
}

#[test]
fn new_transaction_is_dated_today() {
    let a = Account::new();
    let before = Utc::now().date_naive();
    let t = Transaction::new(&a).build().unwrap();
    let after = Utc::now().date_naive();
    let text = t.render();
    let day = |d: chrono::NaiveDate| format!("!Type:Bank\nD{}\nP\nM\nL\nC\nT0.00\n^\n", d.format("%m/%d/%Y"));
    assert!(text == day(before) || text == day(after));
    assert_eq!(t.sum(), 0);
}

#[test]
fn one_account_serves_many_transactions() {
    let a = Account::new().account_type(AccountType::AssetAccount);
    let d = Date::from_ymd(2020, 11, 28).unwrap();
    let t1 = Transaction::new(&a).date(d).amount(1).build().unwrap();
    let t2 = Transaction::new(&a).date(d).amount(2).build().unwrap();
    assert_eq!(t1.render(), "!Type:Oth A\nD11/28/2020\nP\nM\nL\nC\nT0.01\n^\n");
    assert_eq!(t2.render(), "!Type:Oth A\nD11/28/2020\nP\nM\nL\nC\nT0.02\n^\n");
    assert_eq!(a.render(), "!Account\nN\nTOth A\n^\n");
}

#[test]
fn transaction_render_twice_is_the_same() {
    let a = Account::new().account_type(AccountType::Investment);
    let s1 = Split::new().category("Cat1").memo("Split1").amount(-1000);
    let t = Transaction::new(&a)
        .date(Date::from_ymd(2020, 11, 28).unwrap())
        .with_split(&s1)
        .build()
        .unwrap();
    assert_eq!(t.render(), t.render());
}

#[test]
fn sums_of_splits() {
    assert_eq!(sum_of_splits(&[]), 0);
    let list = vec![
        Split::new().amount(-1000),
        Split::new().amount(-2000),
        Split::new().amount(1),
    ];
    assert_eq!(sum_of_splits(&list), -2999);
    let big = vec![Split::new().amount(i64::MAX), Split::new().amount(i64::MAX)];
    assert_eq!(sum_of_splits(&big), 2 * (i64::MAX as i128));
    let small = vec![Split::new().amount(i64::MIN), Split::new().amount(i64::MIN)];
    assert_eq!(sum_of_splits(&small), 2 * (i64::MIN as i128));
}

#[test]
fn sum_beyond_the_range_of_an_amount_is_refused() {
    let a = Account::new();
    let s = Split::new().amount(i64::MAX);
    let t = Transaction::new(&a).with_split(&s).amount(-2);
    let built = t.build();
    assert_eq!(built.unwrap_err(), TransactionError::InvariantViolation);
}

#[test]
fn copies_of_splits() {
    let list = vec![
        Split::new().category("a").memo("b").amount(-1000),
        Split::new().category("c").amount(5),
    ];
    let copy = copy_of_splits(&list);
    assert_eq!(copy.len(), 2);
    assert_eq!(copy[0].render(), "Sa\nEb\n$-10.00\n");
    assert_eq!(copy[1].render(), "Sc\nE\n$0.05\n");
}
