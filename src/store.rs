use vstd::prelude::*;

verus! {

#[verifier::external_type_specification]
#[verifier::external_body]
#[verifier::reject_recursive_types(T)]
pub struct ExObjectPool<T>(object_pool::Pool<T>);

/// The items a pool holds, from the bottom of its stack to the top.
pub uninterp spec fn stacked(p: object_pool::Pool<u64>) -> Seq<u64>;

/// Relies on `object_pool::Pool::new`: a capacity of zero builds no item, so
/// the pool starts empty.
#[verifier::external_body]
pub(crate) fn empty_store() -> (r: object_pool::Pool<u64>)
    ensures
        stacked(r) == Seq::<u64>::empty(),
{
    object_pool::Pool::new(0, u64::default)
}

/// Relies on `object_pool::Pool::attach`: pushes the item on top of the stack.
#[verifier::external_body]
pub(crate) fn store_put(p: &mut object_pool::Pool<u64>, item: u64)
    ensures
        stacked(*final(p)) == stacked(*old(p)).push(item),
{
    p.attach(item)
}

/// Relies on `object_pool::Pool::try_pull` and `Reusable::detach`: pops the
/// top of the stack, or gives nothing when the pool is empty; detaching keeps
/// the item from going back when the handle is dropped.
#[verifier::external_body]
pub(crate) fn store_take(p: &mut object_pool::Pool<u64>) -> (r: Option<u64>)
    ensures
        stacked(*old(p)).len() == 0 ==> r.is_none() && stacked(*final(p)) == stacked(*old(p)),
        stacked(*old(p)).len() > 0 ==> r == Some(stacked(*old(p)).last())
            && stacked(*final(p)) == stacked(*old(p)).drop_last(),
{
    match p.try_pull() {
        Some(handle) => Some(handle.detach().1),
        None => None,
    }
}

/// Relies on `object_pool::Pool::len`: the number of items held.
#[verifier::external_body]
pub(crate) fn store_len(p: &object_pool::Pool<u64>) -> (r: usize)
    ensures
        r == stacked(*p).len(),
{
    p.len()
}

} // verus!
