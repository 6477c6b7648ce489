//! The task list: a vector of tasks whose capacity is fixed by its type and
//! which needs no dynamic memory, as the `heapless` crate provides it.
//!
//! The vector is taken as it is. What its functions do is stated here and
//! not proved: the scheduler is verified against these statements.

use crate::task::Task;
use vstd::prelude::*;

verus! {

/// `heapless::Vec`, a vector of at most `N` items that are kept in the
/// vector itself. Nothing is known of what is inside but what the
/// functions below state.
#[verifier::external_type_specification]
#[verifier::external_body]
#[verifier::reject_recursive_types(T)]
pub struct ExHeaplessVec<T, const N: usize>(heapless::Vec<T, N>);

/// A task list of any capacity. The capacity is a parameter of the list's
/// type; what a list holds is told of all of them alike.
pub trait TaskStore {}

impl<const N: usize> TaskStore for heapless::Vec<Task, N> {}

/// The tasks that a `heapless::Vec` of tasks holds, in the order in which
/// they were pushed.
pub uninterp spec fn task_list_contents(list: &dyn TaskStore) -> Seq<Task>;

/// `heapless::Vec::new`: the vector it returns holds nothing.
#[verifier::external_body]
pub(crate) fn task_list_new<const N: usize>() -> (list: heapless::Vec<Task, N>)
    ensures
        task_list_contents(&list) == Seq::<Task>::empty(),
{
    heapless::Vec::new()
}

/// `heapless::Vec::push`: a vector that holds fewer than `N` tasks gets
/// the task appended. A vector that holds `N` or more is left as it was and
/// the task is handed back.
#[verifier::external_body]
pub(crate) fn task_list_push<const N: usize>(
    list: &mut heapless::Vec<Task, N>,
    task: Task,
) -> (pushed: Result<(), Task>)
    ensures
        pushed == if task_list_contents(old(list)).len() < N {
            Ok::<(), Task>(())
        } else {
            Err::<(), Task>(task)
        },
        task_list_contents(final(list)) == if task_list_contents(old(list)).len() < N {
            task_list_contents(old(list)).push(task)
        } else {
            task_list_contents(old(list))
        },
{
    list.push(task)
}

/// `heapless::Vec::as_slice`: the slice it returns holds the tasks of the
/// vector, in their order.
#[verifier::external_body]
pub(crate) fn task_list_as_slice<const N: usize>(list: &heapless::Vec<Task, N>) -> (tasks: &[Task])
    ensures
        tasks@ == task_list_contents(list),
{
    list.as_slice()
}

/// `DerefMut::deref_mut` of `heapless::Vec`: the slice it returns holds
/// the tasks of the vector, in their order, and what is written to the
/// slice is written to the vector.
#[verifier::external_body]
pub(crate) fn task_list_as_mut_slice<const N: usize>(list: &mut heapless::Vec<Task, N>) -> (tasks:
    &mut [Task])
    ensures
        tasks@ == task_list_contents(old(list)),
        task_list_contents(final(list)) == final(tasks)@,
{
    core::ops::DerefMut::deref_mut(list)
}

} // verus!
