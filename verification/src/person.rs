//! A person with a name of their own, and the one-line text that stands for
//! such a person.

use crate::decimal;
use vstd::prelude::*;
use vstd::std_specs::iter::IteratorSpec;
use vstd::string::*;

verus! {

/// Somebody with a name and an age in years.
#[derive(Clone, Debug, PartialEq, Eq)]
pub struct Person {
    pub name: String,
    pub age: i32,
}

impl Person {
    /// Somebody just born: the given name, and no years yet.
    pub fn newborn(name: String) -> (person: Person)
        ensures
            person.name == name,
            person.age == 0,
    {
        Person { name, age: 0 }
    }

    /// The person's name.
    pub fn name(&self) -> (name: &str)
        ensures
            name@ == self.name@,
    {
        self.name.as_str()
    }

    /// The person's age in years.
    pub fn age(&self) -> (age: i32)
        ensures
            age == self.age,
    {
        self.age
    }

    /// One year later: the person is a year older, under the same name.
    pub fn birthday(&mut self)
        requires
            old(self).age < i32::MAX,
        ensures
            final(self).age == old(self).age + 1,
            final(self).name == old(self).name,
    {
        self.age += 1;
    }

    /// The text that stands for this person: the name, a space, and the age
    /// in round brackets.
    pub open spec fn text(self) -> Seq<char> {
        text_of(self.name@, self.age)
    }

    /// Writes this person out as text.
    pub fn to_string(&self) -> (s: String)
        ensures
            s@ == self.text(),
    {
        proof {
            reveal_strlit(" (");
            reveal_strlit(")");
        }
        let mut s = self.name.clone();
        s.append(" (");
        let age = decimal::to_string(self.age);
        s.append(age.as_str());
        s.append(")");
        assert(s@ =~= self.text());
        s
    }

    /// Reads a person from text: a name, a space, and in round brackets an
    /// age that an `i32` holds. The name ends at the last opening bracket of
    /// the text. Text of any other form gives `None`.
    pub fn parse(s: &str) -> (person: Option<Person>)
        ensures
            match person {
                Some(p) => parse_person(s@) == Some((p.name@, p.age)),
                None => parse_person(s@) is None,
            },
    {
        broadcast use vstd::string::group_string_axioms;

        let total = s.unicode_len();
        let mut chars = s.chars();
        let mut len: usize = 0;
        // One more than the place of the last opening bracket so far.
        let mut open: usize = 0;
        let mut space_before_open = false;
        let mut previous = ' ';
        assert(s@.take(0) =~= Seq::<char>::empty());
        assert(chars.remaining() =~= s@.skip(0));
        loop
            invariant
                total == s@.len(),
                len <= total,
                open <= len,
                chars.remaining() == s@.skip(len as int),
                last_index_of(s@.take(len as int), '(') == open - 1,
                open > 0 ==> s@[open - 1] == '(',
                len > 0 ==> previous == s@[len - 1],
                space_before_open <==> open >= 2 && s@[open - 2] == ' ',
            ensures
                len == total,
            decreases total - len,
        {
            let c = match chars.next() {
                Some(c) => c,
                None => {
                    break ;
                },
            };
            proof {
                assert(s@[len as int] == c);
                assert(s@.skip(len as int).drop_first() =~= s@.skip(len + 1));
                let read = s@.take(len + 1);
                assert(read.drop_last() =~= s@.take(len as int));
                assert(read.last() == c);
            }
            if c == '(' {
                open = len + 1;
                space_before_open = len > 0 && previous == ' ';
            }
            previous = c;
            len += 1;
        }
        assert(s@.take(len as int) =~= s@);
        if len == 0 || previous != ')' || !space_before_open {
            return None;
        }
        let number = s.substring_char(open, len - 1);
        match decimal::parse(number) {
            Some(age) => {
                let name = s.substring_char(0, open - 2);
                Some(Person { name: name.to_owned(), age })
            },
            None => None,
        }
    }
}

/// The text read was not that of a person.
#[derive(Clone, Copy, Debug, PartialEq, Eq)]
pub struct ParsePersonError;

impl std::str::FromStr for Person {
    type Err = ParsePersonError;

    /// Reads a person from text, as `Person::parse` does.
    fn from_str(s: &str) -> (person: Result<Person, ParsePersonError>)
        ensures
            match person {
                Ok(p) => parse_person(s@) == Some((p.name@, p.age)),
                Err(_) => parse_person(s@) is None,
            },
    {
        match Person::parse(s) {
            Some(p) => Ok(p),
            None => Err(ParsePersonError),
        }
    }
}

/// The text that stands for a person of the given name and age.
pub open spec fn text_of(name: Seq<char>, age: i32) -> Seq<char> {
    name + seq![' ', '('] + decimal::render(age as int) + seq![')']
}

/// Where `c` stands last in `s`, or -1 if it does not occur.
pub open spec fn last_index_of(s: Seq<char>, c: char) -> int
    decreases s.len(),
{
    if s.len() == 0 {
        -1
    } else if s.last() == c {
        s.len() - 1
    } else {
        last_index_of(s.drop_last(), c)
    }
}

/// The name and the age that a text stands for: the text ends with a closing
/// bracket, a space stands before its last opening bracket, the name is what
/// comes before that space, and the age is the number between the brackets.
pub open spec fn parse_person(s: Seq<char>) -> Option<(Seq<char>, i32)> {
    let open = last_index_of(s, '(');
    if s.len() > 0 && s.last() == ')' && open >= 1 && s[open - 1] == ' ' {
        match decimal::parse_i32(s.subrange(open + 1, s.len() - 1)) {
            Some(age) => Some((s.subrange(0, open - 1), age)),
            None => None,
        }
    } else {
        None
    }
}

/// A character that does not occur in the tail of a text stands last where
/// it stands last before the tail.
proof fn lemma_last_index_before(front: Seq<char>, tail: Seq<char>, c: char)
    requires
        forall|i: int| 0 <= i < tail.len() ==> tail[i] != c,
    ensures
        last_index_of(front + tail, c) == last_index_of(front, c),
    decreases tail.len(),
{
    if tail.len() == 0 {
        assert(front + tail =~= front);
    } else {
        let whole = front + tail;
        assert(whole.last() == tail.last());
        assert(whole.drop_last() =~= front + tail.drop_last());
        lemma_last_index_before(front, tail.drop_last(), c);
    }
}

/// No bracket stands in a number written out.
proof fn lemma_render_has_no_bracket(n: int)
    ensures
        forall|i: int| 0 <= i < decimal::render(n).len() ==> decimal::render(n)[i] != '(',
{
    let s = decimal::render(n);
    if n < 0 {
        let body = decimal::digits((-n) as nat);
        decimal::lemma_digits_value((-n) as nat);
        assert forall|i: int| 0 <= i < s.len() implies s[i] != '(' by {
            if i > 0 {
                assert(s[i] == body[i - 1]);
                assert(decimal::digit_value(body[i - 1]) is Some);
            }
        }
    } else {
        decimal::lemma_digits_value(n as nat);
        assert forall|i: int| 0 <= i < s.len() implies s[i] != '(' by {
            assert(decimal::digit_value(s[i]) is Some);
        }
    }
}

/// Reading the text that stands for a person gives back the name and the
/// age.
pub proof fn lemma_parse_inverts_text(name: Seq<char>, age: i32)
    ensures
        parse_person(text_of(name, age)) == Some((name, age)),
{
    let number = decimal::render(age as int);
    let front = name + seq![' ', '('];
    let tail = number + seq![')'];
    let s = text_of(name, age);
    assert(s =~= front + tail);
    lemma_render_has_no_bracket(age as int);
    assert forall|i: int| 0 <= i < tail.len() implies tail[i] != '(' by {
        if i < number.len() {
            assert(tail[i] == number[i]);
        }
    }
    lemma_last_index_before(front, tail, '(');
    assert(front.last() == '(');
    assert(last_index_of(front, '(') == front.len() - 1);
    let open: int = name.len() as int + 1;
    assert(s[open - 1] == front[open - 1]);
    assert(s.subrange(open + 1, s.len() - 1) =~= number);
    assert(s.subrange(0, open - 1) =~= name);
    decimal::lemma_parse_i32_inverts_render(age);
}

} // verus!
