use vstd::prelude::*;

verus! {

/// An element-for-element copy of a vector of strings.
pub fn clone_lines(lines: &Vec<String>) -> (copy: Vec<String>)
    ensures
        copy@ == lines@,
{
    let mut copy: Vec<String> = Vec::new();
    let mut i: usize = 0;
    while i < lines.len()
        invariant
            i <= lines@.len(),
            copy@ =~= lines@.subrange(0, i as int),
        decreases lines@.len() - i,
    {
        copy.push(lines[i].clone());
        i = i + 1;
    }
    proof {
        assert(copy@ =~= lines@);
    }
    copy
}

/// A copy of an optional string.
pub fn clone_optional_line(line: &Option<String>) -> (copy: Option<String>)
    ensures
        copy == *line,
{
    match line {
        Some(text) => Some(text.clone()),
        None => None,
    }
}

} // verus!
