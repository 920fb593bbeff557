//! The sample download targets of the parallel-download demo; the
//! downloads themselves are transport work and live outside the library.

use vstd::prelude::*;

verus! {

/// Four mock download addresses.
pub fn mock_uris() -> (r: Vec<String>)
    ensures
        r@.len() == 4,
        r@[0]@ == "1.2.3.4:8080/some.pdf"@,
        r@[1]@ == "4.3.2.1:8081/some.pdf"@,
        r@[2]@ == "5.5.5.5:8082/some.pdf"@,
        r@[3]@ == "2.2.2.2:8083/some.pdf"@,
{
    let mut r: Vec<String> = Vec::new();
    r.push("1.2.3.4:8080/some.pdf".to_owned());
    r.push("4.3.2.1:8081/some.pdf".to_owned());
    r.push("5.5.5.5:8082/some.pdf".to_owned());
    r.push("2.2.2.2:8083/some.pdf".to_owned());
    r
}

} // verus!
