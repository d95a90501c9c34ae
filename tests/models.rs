use gportal::models::{days_for_cents, starts_with, Transaction, TransactionsGrid};
use gportal::time::UtcInstant;

fn row(id: &str, description: &str, amount: &str, time: &str) -> Vec<String> {
    vec![id.to_string(), description.to_string(), amount.to_string(), time.to_string()]
}

fn tx(description: &str, amount: &str, time: &str) -> Transaction {
    Transaction {
        id: "1".to_string(),
        description: description.to_string(),
        amount: amount.to_string(),
        time: time.to_string(),
    }
}

#[test]
fn test_transactions_grid_struct() {
    let data = TransactionsGrid {
        grid: vec![
            row("14500004", "Donation from xfileFIN - Purpose: I neeed VIIIIP!!!", "150.00 €", "2022-10-30T03:00:00+02:00"),
            row("14500003", "Gamecloud Basic - Gamecloud Basic", "-32.70 €", "2022-10-29T20:20:05+02:00"),
            row("14500002", "Donation from xfileFIN@xfileFIN.com - Purpose: VIP for xfileFIN", "5.00 €", "2022-10-29T20:10:05+02:00"),
            row(
                "14500001",
                "Donation from T3stingMan - Purpose: soldiername: xfileFIN\nDiscord tag: xfileFIN#2811",
                "11.84 €",
                "2022-10-28T21:50:01+02:00",
            ),
            row("14500000", "Donation from poorGuy - Purpose: PoorGuy", "1.49 €", "2022-10-01T21:50:01+02:00"),
        ],
    };
    let donations = data.get_donations();
    let ids: Vec<&str> = donations.iter().map(|d| d.id.as_str()).collect();
    assert_eq!(ids, vec!["14500004", "14500002", "14500001", "14500000"]);
    let days: Vec<Option<i64>> = donations.iter().map(|d| d.amount_to_days()).collect();
    assert_eq!(days, vec![Some(1350), Some(30), Some(107), Some(9)]);
    for d in &donations {
        assert!(d.time_to_utc().is_some());
    }
}

#[test]
fn get_donations_keeps_only_prefixed_rows_in_order() {
    let grid = TransactionsGrid {
        grid: vec![
            row("3", "Donation from A - Purpose: x", "€5", "2022-10-30T03:00:00+02:00"),
            row("2", "Gamecloud Basic", "€10", "2022-10-29T03:00:00+02:00"),
            row("1", "donation from lower case", "€1", "2022-10-28T03:00:00+02:00"),
        ],
    };
    let d = grid.get_donations();
    assert_eq!(d.len(), 1);
    assert_eq!(d[0].id, "3");
    assert_eq!(d[0].description, "Donation from A - Purpose: x");
    assert_eq!(d[0].amount, "€5");
    assert_eq!(d[0].time, "2022-10-30T03:00:00+02:00");
}

#[test]
fn get_donations_of_empty_page() {
    let grid = TransactionsGrid { grid: vec![] };
    assert!(grid.get_donations().is_empty());
}

#[test]
fn starts_with_checks_prefix() {
    assert!(starts_with("Donation from B", "Donation from"));
    assert!(!starts_with("Donation", "Donation from"));
    assert!(!starts_with("A Donation from", "Donation from"));
}

#[test]
fn days_formula_tiers() {
    assert_eq!(days_for_cents(1000), 90);
    assert_eq!(days_for_cents(1500), 135);
    assert_eq!(days_for_cents(1184), 107);
    assert_eq!(days_for_cents(999), 75);
    assert_eq!(days_for_cents(800), 60);
    assert_eq!(days_for_cents(500), 30);
    assert_eq!(days_for_cents(149), 9);
    assert_eq!(days_for_cents(125), 8);
    assert_eq!(days_for_cents(0), 0);
    assert_eq!(days_for_cents(-125), -8);
    assert_eq!(days_for_cents(-3270), -196);
    assert_eq!(days_for_cents(i64::MAX), 830_103_483_316_929_823);
}

#[test]
fn amount_parses_to_cents() {
    assert_eq!(tx("x", "150.00 €", "t").amount_to_cents(), Some(15000));
    assert_eq!(tx("x", "1.49 €", "t").amount_to_cents(), Some(149));
    assert_eq!(tx("x", "150.00 €", "t").amount_to_days(), Some(1350));
}

#[test]
fn donator_and_purpose_split() {
    let t = tx("Donation from A - Purpose: x", "€5", "t");
    assert_eq!(t.get_donator_and_purpose(), ("A".to_string(), "x".to_string()));
    let t = tx("Gamecloud Basic", "€5", "t");
    assert_eq!(t.get_donator_and_purpose(), ("Unknown".to_string(), "Gamecloud Basic".to_string()));
}

#[test]
fn time_parses_with_offset() {
    let t = tx("x", "€5", "2022-10-30T03:00:00+02:00");
    assert_eq!(t.time_to_utc(), Some(UtcInstant { secs: 1667091600, nanos: 0 }));
    assert_eq!(tx("x", "€5", "yesterday").time_to_utc(), None);
    assert_eq!(UtcInstant::parse("2022-10-29T00:59:33+02:00"), Some(UtcInstant { secs: 1666997973, nanos: 0 }));
}

#[test]
fn instant_formats_as_rfc3339() {
    let t = UtcInstant { secs: 1667091600, nanos: 0 };
    assert_eq!(t.to_rfc3339(), Some("2022-10-30T01:00:00+00:00".to_string()));
}

#[test]
fn instant_order_and_expiry() {
    let a = UtcInstant { secs: 10, nanos: 5 };
    assert!(a.is_after(UtcInstant { secs: 10, nanos: 4 }));
    assert!(!a.is_after(a));
    assert!(!a.is_after(UtcInstant { secs: 11, nanos: 0 }));
    assert!(UtcInstant { secs: 40, nanos: 5 }.reached(a, 30));
    assert!(!UtcInstant { secs: 40, nanos: 4 }.reached(a, 30));
}

#[test]
fn membership_end_adds_days() {
    let t = tx("Donation from A - Purpose: x", "10.00 €", "2022-10-30T03:00:00+02:00");
    assert_eq!(t.membership_end(), Some(1667091600 + 90 * 86400));
    assert_eq!(tx("x", "10.00 €", "never").membership_end(), None);
}
