//! What is commonly done to a run of numbers: adding them up, changing each,
//! keeping some, and looking for one.

use vstd::prelude::*;

verus! {

/// Whether `x` is even.
pub open spec fn is_even(x: i32) -> bool {
    x % 2 == 0
}

/// The sum of the numbers in `s`.
pub open spec fn total(s: Seq<i32>) -> int
    decreases s.len(),
{
    if s.len() == 0 {
        0
    } else {
        total(s.drop_last()) + s.last()
    }
}

/// Whether the numbers in `s` can be added up from the left in an `i32`.
pub open spec fn sums_fit(s: Seq<i32>) -> bool {
    forall|k: int| 0 <= k <= s.len() ==> i32::MIN <= #[trigger] total(s.take(k)) <= i32::MAX
}

/// The sum of `numbers`, added up from the left.
pub fn sum(numbers: &[i32]) -> (result: i32)
    requires
        sums_fit(numbers@),
    ensures
        result == total(numbers@),
{
    let mut result: i32 = 0;
    assert(numbers@.take(0) =~= Seq::<i32>::empty());
    for number in it: numbers.iter()
        invariant
            sums_fit(numbers@),
            it.seq().len() == numbers@.len(),
            forall|i: int| 0 <= i < it.seq().len() ==> *#[trigger] it.seq()[i] == numbers@[i],
            result == total(numbers@.take(it.index())),
    {
        proof {
            let next = numbers@.take(it.index() + 1);
            assert(next.drop_last() =~= numbers@.take(it.index()));
            assert(next.last() == *number);
            assert(i32::MIN <= total(next) <= i32::MAX);
        }
        result = result + *number;
    }
    assert(numbers@.take(numbers@.len() as int) =~= numbers@);
    result
}

/// Each number of `numbers`, plus one.
pub fn increment_each(numbers: &[i32]) -> (result: Vec<i32>)
    requires
        forall|i: int| 0 <= i < numbers@.len() ==> numbers@[i] < i32::MAX,
    ensures
        result@ == numbers@.map_values(|x: i32| (x + 1) as i32),
{
    let mut result: Vec<i32> = Vec::new();
    let mut i: usize = 0;
    while i < numbers.len()
        invariant
            i <= numbers.len(),
            forall|k: int| 0 <= k < numbers@.len() ==> numbers@[k] < i32::MAX,
            result@.len() == i,
            forall|k: int| 0 <= k < i ==> result@[k] == numbers@[k] + 1,
        decreases numbers.len() - i,
    {
        result.push(numbers[i] + 1);
        i += 1;
    }
    assert(result@ =~= numbers@.map_values(|x: i32| (x + 1) as i32));
    result
}

/// Adds one to each number of `numbers`, in place.
pub fn increment_in_place(numbers: &mut Vec<i32>)
    requires
        forall|i: int| 0 <= i < old(numbers)@.len() ==> old(numbers)@[i] < i32::MAX,
    ensures
        final(numbers)@ == old(numbers)@.map_values(|x: i32| (x + 1) as i32),
{
    let mut i: usize = 0;
    while i < numbers.len()
        invariant
            i <= numbers@.len(),
            numbers@.len() == old(numbers)@.len(),
            forall|k: int| 0 <= k < i ==> numbers@[k] == old(numbers)@[k] + 1,
            forall|k: int| i <= k < numbers@.len() ==> numbers@[k] == old(numbers)@[k],
            forall|k: int| 0 <= k < numbers@.len() ==> old(numbers)@[k] < i32::MAX,
        decreases numbers@.len() - i,
    {
        let x = numbers[i];
        numbers.set(i, x + 1);
        i += 1;
    }
    assert(numbers@ =~= old(numbers)@.map_values(|x: i32| (x + 1) as i32));
}

/// The even numbers of `numbers`, in their order.
pub fn evens(numbers: &[i32]) -> (result: Vec<i32>)
    ensures
        result@ == numbers@.filter(|x: i32| is_even(x)),
{
    let mut result: Vec<i32> = Vec::new();
    let mut i: usize = 0;
    assert(numbers@.take(0) =~= Seq::<i32>::empty());
    while i < numbers.len()
        invariant
            i <= numbers.len(),
            result@ == numbers@.take(i as int).filter(|x: i32| is_even(x)),
        decreases numbers.len() - i,
    {
        let x = numbers[i];
        proof {
            let next = numbers@.take(i + 1);
            assert(next.drop_last() =~= numbers@.take(i as int));
            assert(next.last() == x);
            reveal(Seq::filter);
        }
        if x % 2 == 0 {
            result.push(x);
        }
        i += 1;
    }
    assert(numbers@.take(numbers@.len() as int) =~= numbers@);
    result
}

/// The numbers of every run in `runs`, one run after the other.
pub fn flatten(runs: &[Vec<i32>]) -> (result: Vec<i32>)
    ensures
        result@ == runs@.map_values(|run: Vec<i32>| run@).flatten(),
{
    let ghost views = runs@.map_values(|run: Vec<i32>| run@);
    let mut result: Vec<i32> = Vec::new();
    let mut i: usize = 0;
    assert(views.take(0) =~= Seq::<Seq<i32>>::empty());
    while i < runs.len()
        invariant
            i <= runs.len(),
            views == runs@.map_values(|run: Vec<i32>| run@),
            result@ == views.take(i as int).flatten(),
        decreases runs.len() - i,
    {
        let run = &runs[i];
        let ghost before = result@;
        let mut j: usize = 0;
        while j < run.len()
            invariant
                j <= run.len(),
                result@ == before + run@.take(j as int),
            decreases run.len() - j,
        {
            result.push(run[j]);
            assert(run@.take(j + 1) =~= run@.take(j as int).push(run@[j as int]));
            j += 1;
        }
        proof {
            assert(run@.take(run@.len() as int) =~= run@);
            let seen = views.take(i as int);
            assert(views.take(i + 1) =~= seen.push(run@));
            seen.lemma_flatten_push(run@);
        }
        i += 1;
    }
    assert(views.take(views.len() as int) =~= views);
    result
}

/// Whether every number of `numbers` is even.
pub fn all_even(numbers: &[i32]) -> (all: bool)
    ensures
        all <==> forall|i: int| 0 <= i < numbers@.len() ==> is_even(#[trigger] numbers@[i]),
{
    let mut i: usize = 0;
    while i < numbers.len()
        invariant
            i <= numbers.len(),
            forall|k: int| 0 <= k < i ==> is_even(#[trigger] numbers@[k]),
        decreases numbers.len() - i,
    {
        if numbers[i] % 2 != 0 {
            assert(!is_even(numbers@[i as int]));
            return false;
        }
        i += 1;
    }
    true
}

/// Whether some number of `numbers` is even.
pub fn any_even(numbers: &[i32]) -> (any: bool)
    ensures
        any <==> exists|i: int| 0 <= i < numbers@.len() && is_even(#[trigger] numbers@[i]),
{
    let mut i: usize = 0;
    while i < numbers.len()
        invariant
            i <= numbers.len(),
            forall|k: int| 0 <= k < i ==> !is_even(#[trigger] numbers@[k]),
        decreases numbers.len() - i,
    {
        if numbers[i] % 2 == 0 {
            assert(is_even(numbers@[i as int]));
            return true;
        }
        i += 1;
    }
    false
}

/// The first even number of `numbers`, if there is one.
pub fn first_even(numbers: &[i32]) -> (found: Option<i32>)
    ensures
        match found {
            Some(x) => exists|i: int|
                0 <= i < numbers@.len() && #[trigger] numbers@[i] == x && is_even(x) && forall|
                    k: int,
                |
                    0 <= k < i ==> !is_even(#[trigger] numbers@[k]),
            None => forall|i: int| 0 <= i < numbers@.len() ==> !is_even(#[trigger] numbers@[i]),
        },
{
    let mut i: usize = 0;
    while i < numbers.len()
        invariant
            i <= numbers.len(),
            forall|k: int| 0 <= k < i ==> !is_even(#[trigger] numbers@[k]),
        decreases numbers.len() - i,
    {
        if numbers[i] % 2 == 0 {
            assert(numbers@[i as int] == numbers[i as int]);
            return Some(numbers[i]);
        }
        i += 1;
    }
    None
}

/// The largest number of `numbers`, if there is any number.
pub fn maximum(numbers: &[i32]) -> (largest: Option<i32>)
    ensures
        match largest {
            Some(x) => numbers@.contains(x) && forall|i: int|
                0 <= i < numbers@.len() ==> #[trigger] numbers@[i] <= x,
            None => numbers@.len() == 0,
        },
{
    if numbers.len() == 0 {
        return None;
    }
    let mut largest: i32 = numbers[0];
    let mut i: usize = 1;
    while i < numbers.len()
        invariant
            1 <= i <= numbers.len(),
            numbers@.contains(largest),
            forall|k: int| 0 <= k < i ==> #[trigger] numbers@[k] <= largest,
        decreases numbers.len() - i,
    {
        if numbers[i] > largest {
            largest = numbers[i];
        }
        i += 1;
    }
    Some(largest)
}

/// The smallest number of `numbers`, if there is any number.
pub fn minimum(numbers: &[i32]) -> (smallest: Option<i32>)
    ensures
        match smallest {
            Some(x) => numbers@.contains(x) && forall|i: int|
                0 <= i < numbers@.len() ==> x <= #[trigger] numbers@[i],
            None => numbers@.len() == 0,
        },
{
    if numbers.len() == 0 {
        return None;
    }
    let mut smallest: i32 = numbers[0];
    let mut i: usize = 1;
    while i < numbers.len()
        invariant
            1 <= i <= numbers.len(),
            numbers@.contains(smallest),
            forall|k: int| 0 <= k < i ==> smallest <= #[trigger] numbers@[k],
        decreases numbers.len() - i,
    {
        if numbers[i] < smallest {
            smallest = numbers[i];
        }
        i += 1;
    }
    Some(smallest)
}

} // verus!
