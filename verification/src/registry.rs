//! The method registry: a fixed catalog mapping each supported JSON-RPC
//! method name to the ordered list of its expected parameter names.

use vstd::prelude::*;

verus! {

/// One RPC method's signature: its name and the ordered names of its
/// expected parameters.
#[derive(Debug, Clone)]
pub struct MethodSpec {
    pub name: String,
    pub params: Vec<String>,
}

/// The catalog of supported methods, in a fixed order.
pub fn rpc_specs() -> (r: Vec<MethodSpec>)
    ensures
        r@.len() == 4,
        r@[0].name@ == "eth_blockNumber"@ && r@[0].params@.len() == 0,
        r@[1].name@ == "eth_getBalance"@ && r@[1].params@.len() == 2
            && r@[1].params@[0]@ == "address"@ && r@[1].params@[1]@ == "block"@,
        r@[2].name@ == "eth_sendTransaction"@ && r@[2].params@.len() == 1
            && r@[2].params@[0]@ == "tx_object"@,
        r@[3].name@ == "eth_call"@ && r@[3].params@.len() == 2
            && r@[3].params@[0]@ == "call_object"@ && r@[3].params@[1]@ == "block"@,
{
    let mut r: Vec<MethodSpec> = Vec::new();
    r.push(MethodSpec { name: "eth_blockNumber".to_owned(), params: Vec::new() });
    let mut balance_params: Vec<String> = Vec::new();
    balance_params.push("address".to_owned());
    balance_params.push("block".to_owned());
    r.push(MethodSpec { name: "eth_getBalance".to_owned(), params: balance_params });
    let mut send_params: Vec<String> = Vec::new();
    send_params.push("tx_object".to_owned());
    r.push(MethodSpec { name: "eth_sendTransaction".to_owned(), params: send_params });
    let mut call_params: Vec<String> = Vec::new();
    call_params.push("call_object".to_owned());
    call_params.push("block".to_owned());
    r.push(MethodSpec { name: "eth_call".to_owned(), params: call_params });
    r
}

/// Holds when `r` is the position of the first entry of `specs` named
/// `name`, or `None` when no entry is.
pub open spec fn is_first_spec_match(specs: Seq<MethodSpec>, name: Seq<char>, r: Option<int>) -> bool {
    match r {
        Some(i) => {
            &&& 0 <= i < specs.len()
            &&& specs[i].name@ == name
            &&& forall|j: int| 0 <= j < i ==> specs[j].name@ != name
        },
        None => forall|j: int| 0 <= j < specs.len() ==> specs[j].name@ != name,
    }
}

/// Looks a method up by name; absence is "not found", never a failure.
pub fn lookup<'a>(specs: &'a Vec<MethodSpec>, name: &String) -> (r: Option<&'a MethodSpec>)
    ensures
        match r {
            Some(m) => exists|i: int| is_first_spec_match(specs@, name@, Some(i)) && *m == specs@[i],
            None => is_first_spec_match(specs@, name@, None),
        },
{
    let mut i: usize = 0;
    while i < specs.len()
        invariant
            i <= specs@.len(),
            forall|j: int| 0 <= j < i ==> specs@[j].name@ != name@,
        decreases specs@.len() - i,
    {
        if specs[i].name == *name {
            proof {
                assert(is_first_spec_match(specs@, name@, Some(i as int)));
            }
            return Some(&specs[i]);
        }
        i = i + 1;
    }
    None
}

} // verus!
