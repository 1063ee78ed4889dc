use vstd::prelude::*;

verus! {

/// `i` is the first position of the smallest key among the present ones: the
/// nearest hit, where equal distances go to the shape seen first.
pub open spec fn is_nearest(keys: Seq<Option<u64>>, i: int) -> bool {
    &&& 0 <= i < keys.len()
    &&& keys[i] is Some
    &&& forall|j: int|
        0 <= j < keys.len() && (#[trigger] keys[j]) is Some ==> keys[i]->0 <= keys[j]->0
    &&& forall|j: int| 0 <= j < i && (#[trigger] keys[j]) is Some ==> keys[i]->0 < keys[j]->0
}

/// Scene query over the hit distances of the shapes, in scene order: `keys[j]`
/// is `None` where shape `j` is missed, else a key that orders as its hit
/// distance does. Returns the position of the nearest hit, or `None` when
/// every shape is missed.
pub fn nearest_hit(keys: &Vec<Option<u64>>) -> (r: Option<usize>)
    ensures
        r is None <==> forall|j: int| 0 <= j < keys@.len() ==> (#[trigger] keys@[j]) is None,
        r matches Some(i) ==> is_nearest(keys@, i as int),
{
    let mut best: Option<usize> = None;
    let mut i: usize = 0;
    while i < keys.len()
        invariant
            i <= keys@.len(),
            best is None <==> forall|j: int| 0 <= j < i ==> (#[trigger] keys@[j]) is None,
            best matches Some(b) ==> b < i && is_nearest(keys@.take(i as int), b as int),
        decreases keys@.len() - i,
    {
        let ghost pre = keys@.take(i as int);
        let ghost next = keys@.take(i + 1);
        assert(next.drop_last() =~= pre);
        if let Some(k) = keys[i] {
            let closer = match best {
                None => true,
                Some(b) => match keys[b] {
                    Some(kb) => k < kb,
                    None => false,
                },
            };
            if closer {
                best = Some(i);
            }
        }
        proof {
            assert forall|j: int| 0 <= j < i implies #[trigger] next[j] == pre[j] by {}
            assert(next[i as int] == keys@[i as int]);
        }
        i = i + 1;
    }
    assert(keys@.take(i as int) =~= keys@);
    best
}

} // verus!
