//! Rendering the compilable unit: the fixed template text around the
//! submitted source, the function name, and one argument-pulling call
//! per declared argument.

use vstd::prelude::*;

verus! {

/// One argument-pulling call in the generated shim.
pub open spec fn arg_call_text() -> Seq<char> {
    "get_next(&mut values)?,"@
}

/// The shim's argument list: the pulling call repeated once per
/// declared argument, so the shim pulls exactly that many values.
pub open spec fn arg_calls(n: nat) -> Seq<char>
    decreases n,
{
    if n == 0 {
        Seq::empty()
    } else {
        arg_calls((n - 1) as nat) + arg_call_text()
    }
}

/// Renders the shim's argument list for the declared argument count.
pub fn shim_args(count: usize) -> (r: String)
    ensures
        r@ == arg_calls(count as nat),
{
    let mut s = String::new();
    let mut i: usize = 0;
    while i < count
        invariant
            0 <= i <= count,
            s@ == arg_calls(i as nat),
        decreases count - i,
    {
        s.append("get_next(&mut values)?,");
        i += 1;
    }
    s
}

/// Splices one compilable unit out of the fixed template segments, the
/// submitted source, the function name and the declared argument count:
/// the result is exactly the head segment, the source, the middle
/// segment, the name, the opening segment, the argument calls, and the
/// tail segment, in that order. The source is embedded verbatim, as a
/// declaration, and is not run while rendering.
pub fn render_unit(
    head: &str,
    source: &str,
    middle: &str,
    name: &str,
    opening: &str,
    count: usize,
    tail: &str,
) -> (r: String)
    ensures
        r@ == head@ + source@ + middle@ + name@ + opening@ + arg_calls(count as nat) + tail@,
{
    let mut s = String::from_str(head);
    s.append(source);
    s.append(middle);
    s.append(name);
    s.append(opening);
    let args = shim_args(count);
    s.append(args.as_str());
    s.append(tail);
    s
}

} // verus!
