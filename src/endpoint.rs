//! Service URLs as the discovery walk sees them.

use vstd::prelude::*;

use crate::text::text_equals;

verus! {

/// A service URL as the discovery walk sees it: a scheme, an authority
/// (host and port) and the non-empty segments of its path.
#[derive(Clone, Debug)]
pub struct Endpoint {
    pub scheme: String,
    pub authority: String,
    pub segments: Vec<String>,
}

impl Endpoint {
    /// The root of a host: no path segments.
    pub fn new(scheme: String, authority: String) -> (r: Endpoint)
        ensures
            r.scheme == scheme,
            r.authority == authority,
            r.segments@.len() == 0,
    {
        Endpoint { scheme, authority, segments: Vec::new() }
    }

    /// Append one path segment.
    pub fn with_segment(self, segment: String) -> (r: Endpoint)
        ensures
            r.scheme == self.scheme,
            r.authority == self.authority,
            r.segments@ == self.segments@.push(segment),
    {
        let mut e = self;
        e.segments.push(segment);
        e
    }

    /// A new URL below this one: `path` appended to its segments.
    pub fn join(&self, path: &Vec<String>) -> (r: Endpoint)
        ensures
            r.scheme == self.scheme,
            r.authority == self.authority,
            r.segments@ == self.segments@ + path@,
    {
        let mut segments: Vec<String> = Vec::new();
        let mut i: usize = 0;
        while i < self.segments.len()
            invariant
                i <= self.segments@.len(),
                segments@ == self.segments@.subrange(0, i as int),
            decreases self.segments@.len() - i,
        {
            segments.push(self.segments[i].clone());
            i = i + 1;
            assert(segments@ =~= self.segments@.subrange(0, i as int));
        }
        let mut j: usize = 0;
        while j < path.len()
            invariant
                j <= path@.len(),
                segments@ == self.segments@ + path@.subrange(0, j as int),
            decreases path@.len() - j,
        {
            segments.push(path[j].clone());
            j = j + 1;
            assert(segments@ =~= self.segments@ + path@.subrange(0, j as int));
        }
        assert(path@.subrange(0, path@.len() as int) =~= path@);
        assert(self.segments@.subrange(0, self.segments@.len() as int) =~= self.segments@);
        Endpoint { scheme: self.scheme.clone(), authority: self.authority.clone(), segments }
    }

    /// Whether the path has no segments left to strip.
    pub fn is_root(&self) -> (r: bool)
        ensures
            r == (self.segments@.len() == 0),
    {
        self.segments.len() == 0
    }

    /// The same URL with its last path segment stripped.
    pub fn pop(self) -> (r: Endpoint)
        requires
            self.segments@.len() > 0,
        ensures
            r.scheme == self.scheme,
            r.authority == self.authority,
            r.segments@ == self.segments@.drop_last(),
    {
        let mut e = self;
        e.segments.pop();
        e
    }

    /// Whether the scheme is the secure one.
    pub fn is_secure(&self) -> (r: bool)
        ensures
            r == (self.scheme@ == "https"@),
    {
        text_equals(&self.scheme, "https")
    }

    /// Force the secure scheme, keeping the rest.
    pub fn set_secure(&mut self)
        ensures
            final(self).scheme@ == "https"@,
            final(self).authority == old(self).authority,
            final(self).segments == old(self).segments,
    {
        self.scheme = String::from_str("https");
    }
}

} // verus!
