//! Functions and one record type that are handed to callers written in
//! another language.

use vstd::prelude::*;
use vstd::slice::slice_to_vec;
use vstd::string::*;

verus! {

/// The sum of two integers. The sum has to fit the result type.
pub fn add(a: i32, b: i32) -> (sum: i32)
    requires
        i32::MIN <= a + b <= i32::MAX,
    ensures
        sum == a + b,
{
    a + b
}

/// What [`greet`] says to `name`.
pub open spec fn greeting(name: Seq<char>) -> Seq<char> {
    "Hello, "@ + name + "!"@
}

/// A greeting for `name`.
pub fn greet(name: &str) -> (text: String)
    ensures
        text@ == greeting(name@),
{
    String::from_str("Hello, ").concat(name).concat("!")
}

/// A name, and the values collected under it in the order they came.
#[derive(Debug)]
pub struct MyStruct {
    value: Vec<i32>,
    name: String,
}

/// What a [`MyStruct`] stands for.
pub struct MyStructView {
    pub values: Seq<i32>,
    pub name: Seq<char>,
}

impl View for MyStruct {
    type V = MyStructView;

    closed spec fn view(&self) -> MyStructView {
        MyStructView { values: self.value@, name: self.name@ }
    }
}

impl MyStruct {
    /// A record called `name`, with no values yet.
    pub fn new(name: &str) -> (record: MyStruct)
        ensures
            record@ == (MyStructView { values: Seq::empty(), name: name@ }),
    {
        MyStruct { value: Vec::new(), name: String::from_str(name) }
    }

    /// Adds `val` after the values that are there.
    pub fn add_value(&mut self, val: i32)
        ensures
            final(self)@ == (MyStructView { values: old(self)@.values.push(val), ..old(self)@ }),
    {
        self.value.push(val);
    }

    /// The values, oldest first.
    pub fn get_values(&self) -> (values: &[i32])
        ensures
            values@ == self@.values,
    {
        self.value.as_slice()
    }

    /// The record's name.
    pub fn get_name(&self) -> (name: &str)
        ensures
            name@ == self@.name,
    {
        self.name.as_str()
    }
}

/// A record called `name` on the heap, with no values yet.
pub fn create_my_struct(name: &str) -> (record: Box<MyStruct>)
    ensures
        record@ == (MyStructView { values: Seq::empty(), name: name@ }),
{
    Box::new(MyStruct::new(name))
}

/// Adds `val` after the values that `s` holds.
pub fn add_value_to_struct(s: &mut MyStruct, val: i32)
    ensures
        final(s)@ == (MyStructView { values: old(s)@.values.push(val), ..old(s)@ }),
{
    s.add_value(val);
}

/// A copy of the values that `s` holds, oldest first.
pub fn get_struct_values(s: &MyStruct) -> (values: Vec<i32>)
    ensures
        values@ == s@.values,
{
    slice_to_vec(s.get_values())
}

/// A copy of the name of `s`.
pub fn get_struct_name(s: &MyStruct) -> (name: String)
    ensures
        name@ == s@.name,
{
    String::from_str(s.get_name())
}

} // verus!
