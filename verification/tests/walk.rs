use ifaddrs_core::address::RawSockAddr;
use ifaddrs_core::list::IfAddrs;
use ifaddrs_core::record::RawInterfaceRecord;

fn numbered(n: u8) -> RawInterfaceRecord {
    RawInterfaceRecord {
        name: format!("if{}", n),
        flags: u32::from(n),
        addr: Some(RawSockAddr::Inet([10, 0, 0, n])),
        netmask: Some(RawSockAddr::Inet([255, 255, 255, 0])),
        ifu: Some(RawSockAddr::Inet([10, 0, 0, 255])),
    }
}

fn list_of(chain: Vec<RawInterfaceRecord>) -> IfAddrs {
    match IfAddrs::new(0, 0, 0x1000, chain) {
        Ok(list) => list,
        Err(error) => panic!("a status of 0 gave {:?}", error),
    }
}

#[test]
fn walk_hands_out_the_chain_in_its_order() {
    let chain = vec![numbered(3), numbered(1), numbered(2)];
    let list = list_of(chain);
    let mut walk = list.iter();
    assert_eq!(walk.next(), Some(numbered(3)));
    assert_eq!(walk.next(), Some(numbered(1)));
    assert_eq!(walk.next(), Some(numbered(2)));
    assert_eq!(walk.next(), None);
}

#[test]
fn walk_keeps_records_that_occur_twice() {
    let chain = vec![numbered(7), numbered(7), numbered(4), numbered(7)];
    let list = list_of(chain);
    assert_eq!(
        list.iter().collect(),
        vec![numbered(7), numbered(7), numbered(4), numbered(7)]
    );
}

#[test]
fn exhausted_walk_stays_exhausted() {
    let list = list_of(vec![numbered(1)]);
    let mut walk = list.iter();
    assert_eq!(walk.next(), Some(numbered(1)));
    for _ in 0..10 {
        assert_eq!(walk.next(), None);
    }
}

#[test]
fn walk_over_an_empty_chain_is_exhausted_at_once() {
    let list = list_of(Vec::new());
    let mut walk = list.iter();
    assert_eq!(walk.next(), None);
    assert_eq!(walk.next(), None);
    assert_eq!(walk.collect(), Vec::<RawInterfaceRecord>::new());
}

#[test]
fn two_walks_hand_out_the_same_records() {
    let list = list_of(vec![numbered(1), numbered(2), numbered(3)]);
    let mut first = list.iter();
    let mut second = list.iter();
    let from_first = first.collect();
    let from_second = second.collect();
    assert_eq!(from_first, from_second);
    assert_eq!(from_first, vec![numbered(1), numbered(2), numbered(3)]);
}

#[test]
fn draining_one_walk_leaves_the_other_where_it_was() {
    let list = list_of(vec![numbered(1), numbered(2), numbered(3)]);
    let mut first = list.iter();
    let mut second = list.iter();
    assert_eq!(second.next(), Some(numbered(1)));
    assert_eq!(first.collect().len(), 3);
    assert_eq!(first.next(), None);
    assert_eq!(second.next(), Some(numbered(2)));
    assert_eq!(second.next(), Some(numbered(3)));
    assert_eq!(second.next(), None);
}

#[test]
fn walk_taken_after_another_finished_starts_at_the_head() {
    let list = list_of(vec![numbered(1), numbered(2)]);
    assert_eq!(list.iter().collect().len(), 2);
    assert_eq!(list.iter().next(), Some(numbered(1)));
}

#[test]
fn collect_hands_out_what_the_walk_had_yet_to_reach() {
    let list = list_of(vec![numbered(1), numbered(2), numbered(3), numbered(4)]);
    let mut walk = list.iter();
    assert_eq!(walk.next(), Some(numbered(1)));
    assert_eq!(walk.collect(), vec![numbered(2), numbered(3), numbered(4)]);
    assert_eq!(walk.collect(), Vec::<RawInterfaceRecord>::new());
    assert_eq!(walk.next(), None);
}

#[test]
fn handed_out_record_is_a_copy_of_its_own() {
    let list = list_of(vec![numbered(9)]);
    let mut copy = list.iter().next().unwrap();
    copy.name.push_str("-changed");
    copy.flags = 0;
    assert_eq!(list.iter().next(), Some(numbered(9)));
}

#[test]
fn clone_of_a_record_equals_it() {
    let original = numbered(5);
    let copy = original.clone();
    assert_eq!(copy, original);
    assert_eq!(copy.name, "if5");
    assert_eq!(copy.flags, 5);
    assert_eq!(copy.addr, Some(RawSockAddr::Inet([10, 0, 0, 5])));
    assert_eq!(copy.netmask, Some(RawSockAddr::Inet([255, 255, 255, 0])));
    assert_eq!(copy.ifu, Some(RawSockAddr::Inet([10, 0, 0, 255])));
}
