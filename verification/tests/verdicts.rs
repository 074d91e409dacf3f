//! The guard run against answers that are written down beforehand.

use carrot_script::guard::{evaluate, inspect, scan};
use carrot_script::policy::{has_forbidden_prefix, starts_with};
use carrot_script::{Answer, Error, Fault, HostFailure, Outcome, Report};
use std::cell::RefCell;

fn cells(data: &[&str]) -> Vec<Answer> {
    data.iter().map(|text| Ok(text.as_bytes().to_vec())).collect()
}

fn all_reasons() -> Vec<Error> {
    vec![
        Error::ItemMissing,
        Error::LengthNotEnough,
        Error::Encoding,
        Error::WaitFailure,
        Error::InvalidFd,
        Error::OtherEndClosed,
        Error::MaxVmsSpawned,
        Error::MaxFdsCreated,
        Error::CarrotAttack,
    ]
}

#[test]
fn apple_and_orange_are_accepted() {
    let report = evaluate(&cells(&["apple", "orange"]));
    assert_eq!(report, Report { outcome: Outcome::Accept, index: 2 });
    assert_eq!(report.outcome.exit_status(), Ok(0));
}

#[test]
fn carrot_in_first_cell_is_rejected() {
    let report = evaluate(&cells(&["carrot", "orange"]));
    assert_eq!(report, Report { outcome: Outcome::Reject(Error::CarrotAttack), index: 0 });
    assert_eq!(report.outcome.exit_status(), Ok(9));
}

#[test]
fn carrot_prefix_in_second_cell_is_rejected() {
    let report = evaluate(&cells(&["orange", "carrotcake"]));
    assert_eq!(report, Report { outcome: Outcome::Reject(Error::CarrotAttack), index: 1 });
    assert_eq!(report.outcome.exit_status(), Ok(9));
}

#[test]
fn missing_item_at_first_index_is_rejected() {
    let mut answers = cells(&["apple"]);
    answers[0] = Err(HostFailure::ItemMissing);
    let report = evaluate(&answers);
    assert_eq!(report, Report { outcome: Outcome::Reject(Error::ItemMissing), index: 0 });
    assert_eq!(report.outcome.exit_status(), Ok(Error::ItemMissing.exit_code()));
    assert_eq!(report.outcome.exit_status(), Ok(1));
}

#[test]
fn empty_group_is_accepted_at_once() {
    let report = evaluate(&Vec::new());
    assert_eq!(report, Report { outcome: Outcome::Accept, index: 0 });
    assert_eq!(report.outcome.exit_status(), Ok(0));
}

#[test]
fn clean_groups_are_accepted_after_every_cell() {
    let words = ["apple", "orange", "", "car", "carro", "Carrot", "a carrot", "parrot", "tomato"];
    for size in 0..=words.len() {
        let report = evaluate(&cells(&words[..size]));
        assert_eq!(report, Report { outcome: Outcome::Accept, index: size });
    }
}

#[test]
fn first_forbidden_cell_rejects() {
    let words = ["apple", "orange", "pear", "plum", "fig"];
    for at in 0..words.len() {
        let mut data = words.to_vec();
        data[at] = "carrots";
        let report = evaluate(&cells(&data));
        assert_eq!(report, Report { outcome: Outcome::Reject(Error::CarrotAttack), index: at });
    }
}

#[test]
fn order_of_cells_decides_which_one_rejects() {
    let one_way = evaluate(&cells(&["apple", "carrot", "orange", "carrotcake"]));
    assert_eq!(one_way.index, 1);
    let other_way = evaluate(&cells(&["carrotcake", "orange", "carrot", "apple"]));
    assert_eq!(other_way.index, 0);
    let pushed_back = evaluate(&cells(&["apple", "orange", "carrot", "carrotcake"]));
    assert_eq!(pushed_back.index, 2);
    for report in [one_way, other_way, pushed_back] {
        assert_eq!(report.outcome, Outcome::Reject(Error::CarrotAttack));
    }
}

#[test]
fn cells_are_asked_for_in_index_order() {
    let group = cells(&["apple", "orange", "pear"]);
    let asked = RefCell::new(Vec::new());
    let report = scan(|index: usize| {
        asked.borrow_mut().push(index);
        group.get(index).cloned().unwrap_or(Err(HostFailure::IndexOutOfBound))
    });
    assert_eq!(report, Report { outcome: Outcome::Accept, index: 3 });
    assert_eq!(*asked.borrow(), vec![0, 1, 2, 3]);
}

#[test]
fn nothing_is_asked_after_the_forbidden_cell() {
    let group = cells(&["apple", "carrot", "orange", "carrotcake"]);
    let asked = RefCell::new(Vec::new());
    let report = scan(|index: usize| {
        asked.borrow_mut().push(index);
        group.get(index).cloned().unwrap_or(Err(HostFailure::IndexOutOfBound))
    });
    assert_eq!(report, Report { outcome: Outcome::Reject(Error::CarrotAttack), index: 1 });
    assert_eq!(*asked.borrow(), vec![0, 1]);
}

#[test]
fn nothing_is_asked_after_a_failure() {
    let asked = RefCell::new(Vec::new());
    let report = scan(|index: usize| {
        asked.borrow_mut().push(index);
        if index == 2 {
            Err(HostFailure::Encoding)
        } else {
            Ok(b"carrying no carrot".to_vec())
        }
    });
    assert_eq!(report, Report { outcome: Outcome::Reject(Error::Encoding), index: 2 });
    assert_eq!(*asked.borrow(), vec![0, 1, 2]);
}

#[test]
fn later_answers_do_not_change_the_report() {
    let short = evaluate(&cells(&["apple", "carrot"]));
    let mut longer = cells(&["apple", "carrot", "orange"]);
    longer.push(Err(HostFailure::Unknown(77)));
    longer.push(Ok(b"carrot".to_vec()));
    assert_eq!(evaluate(&longer), short);
}

#[test]
fn evaluating_twice_gives_the_same_report() {
    let groups = [
        cells(&[]),
        cells(&["apple", "orange"]),
        cells(&["orange", "carrotcake"]),
        vec![Ok(b"apple".to_vec()), Err(HostFailure::MaxVmsSpawned)],
        vec![Err(HostFailure::Unknown(12))],
    ];
    for group in groups.iter() {
        let first = evaluate(group);
        let second = evaluate(group);
        assert_eq!(first, second);
        let through_scan =
            scan(|index: usize| group.get(index).cloned().unwrap_or(Err(HostFailure::IndexOutOfBound)));
        assert_eq!(through_scan, first);
    }
}

#[test]
fn each_host_failure_has_its_outcome() {
    let table = [
        (HostFailure::IndexOutOfBound, Outcome::Accept),
        (HostFailure::ItemMissing, Outcome::Reject(Error::ItemMissing)),
        (HostFailure::LengthNotEnough(0), Outcome::Reject(Error::LengthNotEnough)),
        (HostFailure::LengthNotEnough(4096), Outcome::Reject(Error::LengthNotEnough)),
        (HostFailure::Encoding, Outcome::Reject(Error::Encoding)),
        (HostFailure::WaitFailure, Outcome::Reject(Error::WaitFailure)),
        (HostFailure::InvalidFd, Outcome::Reject(Error::InvalidFd)),
        (HostFailure::OtherEndClosed, Outcome::Reject(Error::OtherEndClosed)),
        (HostFailure::MaxVmsSpawned, Outcome::Reject(Error::MaxVmsSpawned)),
        (HostFailure::MaxFdsCreated, Outcome::Reject(Error::MaxFdsCreated)),
        (HostFailure::Unknown(10), Outcome::Fatal(Fault::UnknownFailure(10))),
        (HostFailure::Unknown(u64::MAX), Outcome::Fatal(Fault::UnknownFailure(u64::MAX))),
    ];
    for (failure, outcome) in table {
        assert_eq!(Outcome::from_failure(failure), outcome);
        assert_eq!(inspect(&Err(failure)), Some(outcome));
        let report = evaluate(&vec![Ok(b"apple".to_vec()), Err(failure), Ok(b"carrot".to_vec())]);
        assert_eq!(report, Report { outcome, index: 1 });
    }
}

#[test]
fn exit_codes_follow_the_order_of_the_reasons() {
    let reasons = all_reasons();
    for (position, reason) in reasons.iter().enumerate() {
        assert_eq!(reason.exit_code() as usize, position + 1);
        assert_eq!(Outcome::Reject(*reason).exit_status(), Ok((position + 1) as i8));
    }
    assert_eq!(Error::ItemMissing.exit_code(), 1);
    assert_eq!(Error::LengthNotEnough.exit_code(), 2);
    assert_eq!(Error::Encoding.exit_code(), 3);
    assert_eq!(Error::WaitFailure.exit_code(), 4);
    assert_eq!(Error::InvalidFd.exit_code(), 5);
    assert_eq!(Error::OtherEndClosed.exit_code(), 6);
    assert_eq!(Error::MaxVmsSpawned.exit_code(), 7);
    assert_eq!(Error::MaxFdsCreated.exit_code(), 8);
    assert_eq!(Error::CarrotAttack.exit_code(), 9);
}

#[test]
fn exit_status_of_each_outcome() {
    assert_eq!(Outcome::Accept.exit_status(), Ok(0));
    assert_eq!(Outcome::Reject(Error::CarrotAttack).exit_status(), Ok(9));
    assert_eq!(
        Outcome::Fatal(Fault::UnknownFailure(3)).exit_status(),
        Err(Fault::UnknownFailure(3))
    );
    assert_eq!(Outcome::Fatal(Fault::IndexOverflow).exit_status(), Err(Fault::IndexOverflow));
}

#[test]
fn unknown_failure_breaks_the_run_off() {
    let report = evaluate(&vec![Ok(b"apple".to_vec()), Err(HostFailure::Unknown(4))]);
    assert_eq!(report, Report { outcome: Outcome::Fatal(Fault::UnknownFailure(4)), index: 1 });
    assert_eq!(report.outcome.exit_status(), Err(Fault::UnknownFailure(4)));
}

#[test]
fn inspect_decides_on_data_by_its_prefix() {
    assert_eq!(inspect(&Ok(b"carrot".to_vec())), Some(Outcome::Reject(Error::CarrotAttack)));
    assert_eq!(inspect(&Ok(b"carrotcake".to_vec())), Some(Outcome::Reject(Error::CarrotAttack)));
    assert_eq!(inspect(&Ok(b"carro".to_vec())), None);
    assert_eq!(inspect(&Ok(b"apple".to_vec())), None);
    assert_eq!(inspect(&Ok(Vec::new())), None);
}

#[test]
fn forbidden_prefix_is_matched_byte_by_byte() {
    assert!(has_forbidden_prefix(b"carrot"));
    assert!(has_forbidden_prefix(b"carrots and peas"));
    assert!(has_forbidden_prefix(b"carrot\0"));
    assert!(!has_forbidden_prefix(b""));
    assert!(!has_forbidden_prefix(b"c"));
    assert!(!has_forbidden_prefix(b"carro"));
    assert!(!has_forbidden_prefix(b"carroT"));
    assert!(!has_forbidden_prefix(b"Carrot"));
    assert!(!has_forbidden_prefix(b" carrot"));
    assert!(!has_forbidden_prefix(b"torrac"));
    assert!(!has_forbidden_prefix(b"apple"));
}

#[test]
fn starts_with_agrees_with_the_slice_method() {
    let samples: [&[u8]; 7] = [b"", b"c", b"ca", b"carrot", b"carrotcake", b"orange", b"cart"];
    for data in samples {
        for pattern in samples {
            assert_eq!(starts_with(data, pattern), data.starts_with(pattern));
        }
    }
}
