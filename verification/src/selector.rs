use vstd::prelude::*;

verus! {

/// The registry of every conformity test. Both the device under test and the
/// shield dispatch on it, and the host runs the tests in this order.
#[allow(non_camel_case_types)]
#[derive(Debug, Clone, Copy, PartialEq, Eq, Structural)]
pub enum TestSelector {
    Sanity_Pin,
    I2C_SimpleRead,
    I2C_SimpleWrite,
    I2C_MultiWrite,
    I2C_AddressNAK,
    I2C_DataNAK,
}

/// The tests in declaration order.
pub open spec fn all_tests() -> Seq<TestSelector> {
    seq![
        TestSelector::Sanity_Pin,
        TestSelector::I2C_SimpleRead,
        TestSelector::I2C_SimpleWrite,
        TestSelector::I2C_MultiWrite,
        TestSelector::I2C_AddressNAK,
        TestSelector::I2C_DataNAK,
    ]
}

/// The name under which a test is reported and selected on the command line.
pub open spec fn spec_name(t: TestSelector) -> Seq<char> {
    match t {
        TestSelector::Sanity_Pin => "Sanity_Pin"@,
        TestSelector::I2C_SimpleRead => "I2C_SimpleRead"@,
        TestSelector::I2C_SimpleWrite => "I2C_SimpleWrite"@,
        TestSelector::I2C_MultiWrite => "I2C_MultiWrite"@,
        TestSelector::I2C_AddressNAK => "I2C_AddressNAK"@,
        TestSelector::I2C_DataNAK => "I2C_DataNAK"@,
    }
}

impl TestSelector {
    /// Every test, in declaration order.
    pub fn all() -> (res: Vec<TestSelector>)
        ensures
            res@ == all_tests(),
    {
        vec![
            TestSelector::Sanity_Pin,
            TestSelector::I2C_SimpleRead,
            TestSelector::I2C_SimpleWrite,
            TestSelector::I2C_MultiWrite,
            TestSelector::I2C_AddressNAK,
            TestSelector::I2C_DataNAK,
        ]
    }

    /// The position of the test in the registry.
    pub fn index(&self) -> (res: usize)
        ensures
            res < all_tests().len(),
            all_tests()[res as int] == *self,
    {
        match self {
            TestSelector::Sanity_Pin => 0,
            TestSelector::I2C_SimpleRead => 1,
            TestSelector::I2C_SimpleWrite => 2,
            TestSelector::I2C_MultiWrite => 3,
            TestSelector::I2C_AddressNAK => 4,
            TestSelector::I2C_DataNAK => 5,
        }
    }

    /// The name of the test.
    pub fn name(&self) -> (res: &'static str)
        ensures
            res@ == spec_name(*self),
    {
        match self {
            TestSelector::Sanity_Pin => "Sanity_Pin",
            TestSelector::I2C_SimpleRead => "I2C_SimpleRead",
            TestSelector::I2C_SimpleWrite => "I2C_SimpleWrite",
            TestSelector::I2C_MultiWrite => "I2C_MultiWrite",
            TestSelector::I2C_AddressNAK => "I2C_AddressNAK",
            TestSelector::I2C_DataNAK => "I2C_DataNAK",
        }
    }
}

/// The registry holds every test exactly once, so a run of all tests runs
/// each of them once.
pub proof fn law_registry_complete(t: TestSelector)
    ensures
        all_tests().contains(t),
        all_tests().no_duplicates(),
{
    let s = all_tests();
    match t {
        TestSelector::Sanity_Pin => assert(s[0] == t),
        TestSelector::I2C_SimpleRead => assert(s[1] == t),
        TestSelector::I2C_SimpleWrite => assert(s[2] == t),
        TestSelector::I2C_MultiWrite => assert(s[3] == t),
        TestSelector::I2C_AddressNAK => assert(s[4] == t),
        TestSelector::I2C_DataNAK => assert(s[5] == t),
    }
}


/// Different tests have different names, so a name selects one test.
pub proof fn law_names_distinct(a: TestSelector, b: TestSelector)
    ensures
        a != b ==> spec_name(a) != spec_name(b),
{
    reveal_strlit("Sanity_Pin");
    reveal_strlit("I2C_SimpleRead");
    reveal_strlit("I2C_SimpleWrite");
    reveal_strlit("I2C_MultiWrite");
    reveal_strlit("I2C_AddressNAK");
    reveal_strlit("I2C_DataNAK");
    if a != b {
        let (x, y) = (spec_name(a), spec_name(b));
        if x.len() == y.len() {
            assert(x[4] != y[4] || x[5] != y[5] || x[0] != y[0]);
        }
    }
}

} // verus!
