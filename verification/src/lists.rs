use vstd::prelude::*;

verus! {

/// A copy of a list.
pub fn copy_list<T: Copy>(list: &Vec<T>) -> (copy: Vec<T>)
    ensures
        copy@ == list@,
{
    let mut copy: Vec<T> = Vec::new();
    let mut k: usize = 0;
    while k < list.len()
        invariant
            k <= list.len(),
            copy@ == list@.take(k as int),
        decreases list.len() - k,
    {
        copy.push(list[k]);
        assert(list@.take(k + 1) =~= list@.take(k as int).push(list[k as int]));
        k = k + 1;
    }
    assert(list@.take(list.len() as int) =~= list@);
    copy
}

/// Puts the items of `more` behind those of `list`.
pub fn append_list<T: Copy>(list: &mut Vec<T>, more: &Vec<T>)
    ensures
        final(list)@ == old(list)@ + more@,
{
    let mut k: usize = 0;
    assert(list@ =~= old(list)@ + more@.take(0));
    while k < more.len()
        invariant
            k <= more.len(),
            list@ == old(list)@ + more@.take(k as int),
        decreases more.len() - k,
    {
        list.push(more[k]);
        assert(more@.take(k + 1) =~= more@.take(k as int).push(more[k as int]));
        assert(list@ =~= old(list)@ + more@.take(k + 1));
        k = k + 1;
    }
    assert(more@.take(more.len() as int) =~= more@);
}

} // verus!
