use interpreter2::util::MaybeVec;

fn drain(mut list: MaybeVec<u32>) -> Vec<u32> {
    let mut taken = Vec::new();
    loop {
        let (rest, last) = list.pop();
        list = rest;
        match last {
            Some(value) => taken.push(value),
            None => return taken,
        }
    }
}

#[test]
fn maybe_vec_is_a_stack() {
    let empty: MaybeVec<u32> = MaybeVec::default();
    assert!(matches!(empty, MaybeVec::Empty));
    let (still_empty, nothing) = empty.pop();
    assert!(matches!(still_empty, MaybeVec::Empty));
    assert_eq!(nothing, None);
    let one = MaybeVec::default().push(1);
    assert!(matches!(one, MaybeVec::One(1)));
    let two = one.push(2);
    assert!(matches!(two, MaybeVec::Vec(_)));
    let three = two.push(3);
    assert_eq!(drain(three), vec![3, 2, 1]);
    let (rest, last) = MaybeVec::default().push(7).pop();
    assert_eq!(last, Some(7));
    assert!(matches!(rest, MaybeVec::Empty));
    let (rest, last) = MaybeVec::default().push(7).push(8).pop();
    assert_eq!(last, Some(8));
    assert_eq!(drain(rest), vec![7]);
}
