use vstd::prelude::*;

verus! {

/// The characters that random strings are drawn from.
#[derive(Debug)]
pub enum RandomStringCharSet {
    Number,
    LowerAlphabet,
    UpperAlphabet,
    Custom(String),
}

impl RandomStringCharSet {
    /// The characters of the set, in order.
    pub open spec fn chars(&self) -> Seq<char> {
        match self {
            RandomStringCharSet::Number => "0123456789"@,
            RandomStringCharSet::LowerAlphabet => "abcdefghijklmnopqrstuvwxyz"@,
            RandomStringCharSet::UpperAlphabet => "ABCDEFGHIJKLMNOPQRSTUVWXYZ"@,
            RandomStringCharSet::Custom(s) => s@,
        }
    }

    pub fn to_str(&self) -> (r: &str)
        ensures
            r@ == self.chars(),
    {
        match self {
            RandomStringCharSet::Number => "0123456789",
            RandomStringCharSet::LowerAlphabet => "abcdefghijklmnopqrstuvwxyz",
            RandomStringCharSet::UpperAlphabet => "ABCDEFGHIJKLMNOPQRSTUVWXYZ",
            RandomStringCharSet::Custom(s) => s.as_str(),
        }
    }

    /// The custom set of the characters of `self` followed by those of `rhs`.
    pub fn add(self, rhs: RandomStringCharSet) -> (r: RandomStringCharSet)
        ensures
            r is Custom,
            r.chars() == self.chars() + rhs.chars(),
    {
        let mut cset = String::new();
        cset.append(self.to_str());
        cset.append(rhs.to_str());
        assert(cset@ =~= self.chars() + rhs.chars());
        RandomStringCharSet::Custom(cset)
    }
}

/// The random payload of a response, with the time the service completed it.
#[derive(Debug)]
pub struct RandomData<T> {
    pub completion_time: String,
    pub data: T,
}

impl<T> RandomData<T> {
    pub fn new(completion_time: String, data: T) -> (r: RandomData<T>)
        ensures
            r.completion_time@ == completion_time@,
            r.data == data,
    {
        RandomData { completion_time, data }
    }
}

} // verus!
