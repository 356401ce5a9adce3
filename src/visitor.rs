//! Visitors that build a value out of a list of integers, and deserializers
//! that drive them.
use vstd::prelude::*;

use crate::text::{char_texts, i32_of, parse_i32, split_words, words};



verus! {

/// Visitor can visit one type, do conversions, and output another type.
pub trait Visitor {
    type Value;

    /// What visiting `v` gives.
    spec fn visited(&self, v: Seq<i32>) -> Self::Value;

    /// Visits a vector of at least two integers and outputs a desired type.
    fn visit_vec(&self, v: Vec<i32>) -> (r: Self::Value)
        requires
            v.len() >= 2,
        ensures
            r == self.visited(v@),
    ;
}

/// A struct of two integer values.
#[derive(Clone, Copy, Debug, PartialEq, Eq, Structural)]
pub struct TwoValuesStruct {
    pub a: i32,
    pub b: i32,
}

impl TwoValuesStruct {
    pub fn new() -> (r: Self)
        ensures
            r.a == 0 && r.b == 0,
    {
        TwoValuesStruct { a: 0, b: 0 }
    }
}

/// Takes the first two values.
impl Visitor for TwoValuesStruct {
    type Value = TwoValuesStruct;

    open spec fn visited(&self, v: Seq<i32>) -> TwoValuesStruct {
        TwoValuesStruct { a: v[0], b: v[1] }
    }

    fn visit_vec(&self, v: Vec<i32>) -> (r: TwoValuesStruct) {
        TwoValuesStruct { a: v[0], b: v[1] }
    }
}

/// A struct of values array.
#[derive(Clone, Copy, Debug, PartialEq, Eq)]
pub struct TwoValuesArray {
    pub ab: [i32; 2],
}

impl TwoValuesArray {
    pub fn new() -> (r: Self)
        ensures
            r.ab@ == seq![0i32, 0i32],
    {
        TwoValuesArray { ab: [0, 0] }
    }
}

/// Takes the first two values.
impl Visitor for TwoValuesArray {
    type Value = TwoValuesArray;

    open spec fn visited(&self, v: Seq<i32>) -> TwoValuesArray {
        TwoValuesArray { ab: [v[0], v[1]] }
    }

    fn visit_vec(&self, v: Vec<i32>) -> (r: TwoValuesArray) {
        let mut ab = [0i32; 2];
        ab[0] = v[0];
        ab[1] = v[1];
        assert(ab =~= [v[0], v[1]]);
        TwoValuesArray { ab }
    }
}

/// Whether every word spells an `i32`.
pub open spec fn all_numbers(ws: Seq<Seq<char>>) -> bool {
    forall|i: int| 0 <= i < ws.len() ==> (#[trigger] i32_of(ws[i])) is Some
}

/// The values the words spell.
pub open spec fn numbers(ws: Seq<Seq<char>>) -> Seq<i32> {
    ws.map_values(|w: Seq<char>| i32_of(w)->0)
}

/// Parses a string or a vector, and hands the values to a visitor that knows
/// how to build the desired type.
pub trait Deserializer<V: Visitor>: Sized {
    /// The visitor that builds the values.
    spec fn spec_visitor(&self) -> V;

    fn create(visitor: V) -> (r: Self)
        ensures
            r.spec_visitor() == visitor,
    ;

    fn parse_str(&self, input: &str) -> (r: Result<V::Value, &'static str>)
        default_ensures
            r matches Err(e) && e@ == "parse_str is unimplemented"@,
    {
        Err("parse_str is unimplemented")
    }

    fn parse_vec(&self, input: Vec<i32>) -> (r: Result<V::Value, &'static str>)
        default_ensures
            r matches Err(e) && e@ == "parse_vec is unimplemented"@,
    {
        Err("parse_vec is unimplemented")
    }
}

/// Reads the values from whitespace-separated decimal integers.
pub struct StringDeserializer<V: Visitor> {
    visitor: V,
}

impl<V: Visitor> Deserializer<V> for StringDeserializer<V> {
    closed spec fn spec_visitor(&self) -> V {
        self.visitor
    }

    fn create(visitor: V) -> (r: Self) {
        StringDeserializer { visitor }
    }

    /// The words of `input` must all be integers, and there must be two or more.
    fn parse_str(&self, input: &str) -> (r: Result<V::Value, &'static str>)
        ensures
            !all_numbers(words(input@)) ==> (r matches Err(e) && e@ == "invalid integer"@),
            all_numbers(words(input@)) && words(input@).len() < 2 ==> (r matches Err(e) && e@
                == "fewer than two values"@),
            all_numbers(words(input@)) && words(input@).len() >= 2 ==> r == Ok::<
                V::Value,
                &'static str,
            >(self.spec_visitor().visited(numbers(words(input@)))),
    {
        let ws = split_words(input);
        let ghost wv = char_texts(ws@);
        let mut values: Vec<i32> = Vec::new();
        let mut i: usize = 0;
        while i < ws.len()
            invariant
                wv == char_texts(ws@),
                wv == words(input@),
                i <= ws.len(),
                values@ == numbers(wv.subrange(0, i as int)),
                forall|j: int| 0 <= j < i ==> (#[trigger] i32_of(wv[j])) is Some,
            decreases ws.len() - i,
        {
            match parse_i32(&ws[i]) {
                Some(v) => {
                    values.push(v);
                    assert(values@ =~= numbers(wv.subrange(0, i + 1)));
                },
                None => {
                    assert(i32_of(wv[i as int]) is None);
                    return Err("invalid integer");
                },
            }
            i = i + 1;
        }
        assert(wv.subrange(0, i as int) =~= wv);
        if values.len() < 2 {
            return Err("fewer than two values");
        }
        Ok(self.visitor.visit_vec(values))
    }
}

/// Takes the values as they are.
pub struct VecDeserializer<V: Visitor> {
    visitor: V,
}

impl<V: Visitor> Deserializer<V> for VecDeserializer<V> {
    closed spec fn spec_visitor(&self) -> V {
        self.visitor
    }

    fn create(visitor: V) -> (r: Self) {
        VecDeserializer { visitor }
    }

    /// There must be two or more values.
    fn parse_vec(&self, input: Vec<i32>) -> (r: Result<V::Value, &'static str>)
        ensures
            input.len() < 2 ==> (r matches Err(e) && e@ == "fewer than two values"@),
            input.len() >= 2 ==> r == Ok::<V::Value, &'static str>(
                self.spec_visitor().visited(input@),
            ),
    {
        if input.len() < 2 {
            return Err("fewer than two values");
        }
        Ok(self.visitor.visit_vec(input))
    }
}

} // verus!
