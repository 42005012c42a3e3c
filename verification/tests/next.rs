use netmachines::events::Events;
use netmachines::next::{Intent, Interest, Next};
use netmachines::time::Time;
use std::time::Duration;

const ALL: [Interest; 5] =
    [Interest::Wait, Interest::Read, Interest::Write, Interest::ReadWrite, Interest::Remove];

fn next(interest: Interest) -> Next<u8> {
    match interest {
        Interest::Wait => Next::wait(0),
        Interest::Read => Next::read(0),
        Interest::Write => Next::write(0),
        Interest::ReadWrite => Next::read_and_write(0),
        Interest::Remove => Next::remove(),
    }
}

fn intent(interest: Interest, deadline: Option<u64>) -> Intent {
    Intent { interest, deadline: deadline.map(Time::from_millis) }
}

//------------ Join ------------------------------------------------------------

#[test]
fn join_of_read_and_write_is_read_write() {
    assert_eq!(Interest::Read.join(Interest::Write), Interest::ReadWrite);
    assert_eq!(Interest::Write.join(Interest::Read), Interest::ReadWrite);
}

#[test]
fn join_is_idempotent_and_commutative() {
    for a in ALL {
        assert_eq!(a.join(a), a);
        for b in ALL {
            assert_eq!(a.join(b), b.join(a));
        }
    }
}

#[test]
fn join_is_associative() {
    for a in ALL {
        for b in ALL {
            for c in ALL {
                assert_eq!(a.join(b).join(c), a.join(b.join(c)));
            }
        }
    }
}

#[test]
fn join_table() {
    let (wait, read, write) = (Interest::Wait, Interest::Read, Interest::Write);
    let (both, remove) = (Interest::ReadWrite, Interest::Remove);
    let table = [
        [wait, read, write, both, remove],
        [read, read, both, both, remove],
        [write, both, write, both, remove],
        [both, both, both, both, remove],
        [remove, remove, remove, remove, remove],
    ];
    for (i, a) in ALL.iter().enumerate() {
        for (j, b) in ALL.iter().enumerate() {
            assert_eq!(a.join(*b), table[i][j]);
        }
    }
}

#[test]
fn events_of_each_interest() {
    assert_eq!(Interest::Wait.events(), Events::none());
    assert_eq!(Interest::Read.events(), Events::readable());
    assert_eq!(Interest::Write.events(), Events::writable());
    assert_eq!(Interest::ReadWrite.events(), Events::readable().union(Events::writable()));
    assert_eq!(Interest::Remove.events(), Events::none());
    assert_eq!(intent(Interest::ReadWrite, Some(3)).events(), Interest::ReadWrite.events());
}

//------------ Next ------------------------------------------------------------

#[test]
fn merge_read_into_write_is_read_write() {
    let (intent, ()) = Intent::new(Next::read(()), Time::from_millis(1)).unwrap();
    let (intent, ()) = intent.merge(Next::write(()), Time::from_millis(1)).unwrap();
    assert_eq!(intent.interest, Interest::ReadWrite);
    assert_eq!(intent.deadline, None);
}

#[test]
fn timeout_becomes_deadline() {
    let next = Next::wait(7u8).timeout(Duration::from_millis(150));
    let (intent, state) = Intent::new(next, Time::from_millis(1)).unwrap();
    assert_eq!(state, 7);
    assert_eq!(intent.interest, Interest::Wait);
    assert_eq!(intent.deadline, Some(Time::from_millis(151)));
}

#[test]
fn later_timeout_replaces_the_earlier() {
    let next =
        Next::read(()).timeout(Duration::from_secs(9)).timeout(Duration::from_millis(20));
    let (intent, ()) = Intent::new(next, Time::from_millis(100)).unwrap();
    assert_eq!(intent.deadline(), Some(Time::from_millis(120)));
}

#[test]
fn timeout_is_cut_to_whole_milliseconds() {
    let next = Next::read(()).timeout(Duration::new(10, 1_999_999));
    let (intent, ()) = Intent::new(next, Time::from_millis(1)).unwrap();
    assert_eq!(intent.deadline, Some(Time::from_millis(10_002)));
    let next = Next::read(()).timeout(Duration::from_nanos(999_999));
    let (intent, ()) = Intent::new(next, Time::from_millis(1)).unwrap();
    assert_eq!(intent.deadline, Some(Time::from_millis(1)));
}

#[test]
fn new_of_remove_is_none() {
    assert!(Intent::new(Next::<u8>::remove(), Time::from_millis(1)).is_none());
    let removed = Next::<u8>::remove().timeout(Duration::from_millis(5));
    assert!(Intent::new(removed, Time::from_millis(1)).is_none());
}

#[test]
fn new_keeps_the_interest() {
    for interest in [Interest::Wait, Interest::Read, Interest::Write, Interest::ReadWrite] {
        let (made, state) = Intent::new(next(interest), Time::from_millis(1)).unwrap();
        assert_eq!(state, 0);
        assert_eq!(made.interest, interest);
        assert_eq!(made.deadline, None);
    }
}

#[test]
fn map_keeps_interest_and_timeout() {
    let next = Next::write(20u8).timeout(Duration::from_millis(30)).map(|n| u32::from(n) + 1);
    let (intent, state) = Intent::new(next, Time::from_millis(0)).unwrap();
    assert_eq!(state, 21);
    assert_eq!(intent.interest, Interest::Write);
    assert_eq!(intent.deadline, Some(Time::from_millis(30)));
}

#[test]
fn map_of_remove_calls_nothing() {
    let mut called = false;
    let next = Next::<u8>::remove().map(|n| {
        called = true;
        n
    });
    assert!(Intent::new(next, Time::from_millis(0)).is_none());
    assert!(!called);
}

#[test]
fn clone_keeps_everything() {
    let next = Next::read(5u8).timeout(Duration::from_millis(30));
    let copy = next.clone();
    let (a, x) = Intent::new(next, Time::from_millis(1)).unwrap();
    let (b, y) = Intent::new(copy, Time::from_millis(1)).unwrap();
    assert_eq!(x, y);
    assert_eq!(a.interest, b.interest);
    assert_eq!(a.deadline, b.deadline);
    assert!(Intent::new(Next::<u8>::remove().clone(), Time::from_millis(1)).is_none());
}

//------------ The fold --------------------------------------------------------

#[test]
fn merge_follows_the_join() {
    for a in ALL {
        for b in ALL {
            let merged = intent(a, None).merge(next(b), Time::from_millis(1));
            let joined = a.join(b);
            match merged {
                Some((after, _)) => {
                    assert_eq!(after.interest, joined);
                    assert_ne!(joined, Interest::Remove);
                }
                None => assert_eq!(joined, Interest::Remove),
            }
        }
    }
}

#[test]
fn remove_is_absorbing() {
    // A fold that has yielded `Remove` stays `Remove`, whatever follows.
    for then in ALL {
        for timeout in [None, Some(7u64)] {
            let mut answer = next(then);
            if let Some(millis) = timeout {
                answer = answer.timeout(Duration::from_millis(millis));
            }
            let after = intent(Interest::Remove, Some(3)).merge(answer, Time::from_millis(1));
            assert!(after.is_none());
        }
    }
}

#[test]
fn deadline_is_the_earlier_of_both() {
    let held = intent(Interest::Read, Some(500));
    let answer = Next::read(()).timeout(Duration::from_millis(100));
    let (after, ()) = held.merge(answer, Time::from_millis(300)).unwrap();
    assert_eq!(after.deadline, Some(Time::from_millis(400)));
    let answer = Next::read(()).timeout(Duration::from_millis(300));
    let (after, ()) = held.merge(answer, Time::from_millis(300)).unwrap();
    assert_eq!(after.deadline, Some(Time::from_millis(500)));
    let answer = Next::read(()).timeout(Duration::from_millis(200));
    let (after, ()) = held.merge(answer, Time::from_millis(300)).unwrap();
    assert_eq!(after.deadline, Some(Time::from_millis(500)));
}

#[test]
fn deadline_of_the_timeout_alone() {
    let held = intent(Interest::Read, None);
    let answer = Next::write(()).timeout(Duration::from_secs(2));
    let (after, ()) = held.merge(answer, Time::from_millis(300)).unwrap();
    assert_eq!(after.deadline, Some(Time::from_millis(2300)));
}

#[test]
fn deadline_stays_without_a_timeout() {
    let (after, ()) =
        intent(Interest::Read, Some(500)).merge(Next::write(()), Time::from_millis(499)).unwrap();
    assert_eq!(after.deadline, Some(Time::from_millis(500)));
    let (after, ()) =
        intent(Interest::Read, None).merge(Next::write(()), Time::from_millis(1)).unwrap();
    assert_eq!(after.deadline, None);
}

#[test]
fn deadline_saturates() {
    let answer = Next::read(()).timeout(Duration::from_secs(u64::MAX));
    let (after, ()) = Intent::new(answer, Time::from_millis(1)).unwrap();
    assert_eq!(after.deadline, Some(Time::from_millis(u64::MAX)));
    let answer = Next::read(()).timeout(Duration::from_millis(10));
    let (after, ()) = Intent::new(answer, Time::from_millis(u64::MAX - 3)).unwrap();
    assert_eq!(after.deadline, Some(Time::from_millis(u64::MAX)));
}

#[test]
fn resumed_keeps_the_deadline_only() {
    let held = intent(Interest::ReadWrite, Some(40));
    assert_eq!(held.resumed().interest, Interest::Wait);
    assert_eq!(held.resumed().deadline, Some(Time::from_millis(40)));
}

#[test]
fn text_names_what_is_asked() {
    assert_eq!(Next::wait(()).text(), "Next::Wait");
    assert_eq!(Next::read(()).text(), "Next::Read");
    assert_eq!(Next::write(()).text(), "Next::Write");
    assert_eq!(Next::read_and_write(()).text(), "Next::ReadWrite");
    assert_eq!(Next::<u8>::remove().text(), "Next::Remove");
}

#[test]
fn text_shows_the_timeout() {
    assert_eq!(Next::read(()).timeout(Duration::from_secs(10)).text(), "Next::Read(10s)");
    assert_eq!(Next::wait(()).timeout(Duration::from_millis(150)).text(), "Next::Wait(150ms)");
    assert_eq!(Next::<u8>::remove().timeout(Duration::from_millis(1500)).text(), "Next::Remove(1.5s)");
}
