//! Which entries of an archive may be unpacked: those that stay inside the
//! directory they are unpacked to.

use vstd::prelude::*;
use vstd::string::*;

verus! {

/// Whether `c` separates the components of a path, on any system.
pub open spec fn is_separator(c: char) -> bool {
    c == '/' || c == '\\'
}

/// What a component of a path is, as far as it has been read.
#[derive(Debug, Clone, Copy, PartialEq, Eq, Structural)]
pub enum Segment {
    /// Nothing was read yet.
    Empty,
    /// One dot: the directory itself.
    Dot,
    /// Two dots: the parent directory.
    DotDot,
    /// Anything else: a name.
    Name,
}

/// The component `segment` with the character `c` behind it.
pub open spec fn extended(segment: Segment, c: char) -> Segment {
    match segment {
        Segment::Empty => if c == '.' {
            Segment::Dot
        } else {
            Segment::Name
        },
        Segment::Dot => if c == '.' {
            Segment::DotDot
        } else {
            Segment::Name
        },
        _ => Segment::Name,
    }
}

/// How deep below the directory a path lies that lay `depth` deep before
/// the component `segment`: a name leads one level down, two dots lead one
/// level up, and `None` where they would lead out of the directory.
pub open spec fn closed(depth: int, segment: Segment) -> Option<int> {
    match segment {
        Segment::Empty => Some(depth),
        Segment::Dot => Some(depth),
        Segment::DotDot => if depth > 0 {
            Some(depth - 1)
        } else {
            None
        },
        Segment::Name => Some(depth + 1),
    }
}

/// Where reading `path` from left to right ends: how deep below the
/// directory the components lie that are complete, and what the last
/// component is so far; `None` where a component has led out of the
/// directory.
pub open spec fn scanned(path: Seq<char>) -> Option<(int, Segment)>
    decreases path.len(),
{
    if path.len() == 0 {
        Some((0, Segment::Empty))
    } else {
        match scanned(path.drop_last()) {
            None => None,
            Some((depth, segment)) => if is_separator(path.last()) {
                match closed(depth, segment) {
                    Some(below) => Some((below, Segment::Empty)),
                    None => None,
                }
            } else {
                Some((depth, extended(segment, path.last())))
            },
        }
    }
}

/// Whether no component of `path` leads out of the directory that the
/// path starts in.
pub open spec fn stays_inside(path: Seq<char>) -> bool {
    scanned(path) matches Some((depth, segment)) && closed(depth, segment) is Some
}

/// Whether `path` names a place by itself and not below a directory: it
/// starts with a separator, or with the letter of a drive and a colon.
pub open spec fn is_absolute(path: Seq<char>) -> bool {
    (path.len() >= 1 && is_separator(path[0])) || (path.len() >= 2 && path[1] == ':')
}

/// Whether an entry named `name` may be unpacked: its place lies inside
/// the directory that the archive is unpacked to.
pub open spec fn safe_entry(name: Seq<char>) -> bool {
    !is_absolute(name) && stays_inside(name)
}

/// While a path is read, it lies no deeper than it has characters.
pub proof fn lemma_scanned_depth(path: Seq<char>)
    ensures
        scanned(path) matches Some((depth, segment)) ==> 0 <= depth <= path.len() && (segment
            != Segment::Empty ==> depth < path.len()),
    decreases path.len(),
{
    if path.len() > 0 {
        lemma_scanned_depth(path.drop_last());
    }
}

/// A path without a dot stays inside its directory.
pub proof fn lemma_no_dot_stays_inside(path: Seq<char>)
    requires
        forall|i: int| 0 <= i < path.len() ==> path[i] != '.',
    ensures
        stays_inside(path),
        scanned(path) matches Some((depth, segment)) && depth >= 0 && (segment == Segment::Empty
            || segment == Segment::Name),
    decreases path.len(),
{
    if path.len() > 0 {
        let front = path.drop_last();
        assert forall|i: int| 0 <= i < front.len() implies front[i] != '.' by {
            assert(front[i] == path[i]);
        }
        lemma_no_dot_stays_inside(front);
        assert(path.last() == path[path.len() - 1]);
    }
}

/// A path that leads out of its directory does so whatever follows.
pub proof fn lemma_escape_is_final(path: Seq<char>, rest: Seq<char>)
    requires
        scanned(path) is None,
    ensures
        scanned(path + rest) is None,
        !stays_inside(path + rest),
    decreases rest.len(),
{
    if rest.len() == 0 {
        assert(path + rest =~= path);
    } else {
        lemma_escape_is_final(path, rest.drop_last());
        assert((path + rest).drop_last() =~= path + rest.drop_last());
    }
}

/// Whether an entry of an archive named `name` may be unpacked. An entry
/// may not where its name is an absolute path, or where one of its
/// components leads out of the directory that the archive is unpacked to.
pub fn is_safe_entry(name: &str) -> (r: bool)
    ensures
        r == safe_entry(name@),
{
    let n = name.unicode_len();
    if n >= 1 {
        let first = name.get_char(0);
        if first == '/' || first == '\\' {
            return false;
        }
    }
    if n >= 2 && name.get_char(1) == ':' {
        return false;
    }
    let mut depth: usize = 0;
    let mut segment = Segment::Empty;
    let mut i: usize = 0;
    assert(name@.take(0) =~= Seq::<char>::empty());
    while i < n
        invariant
            i <= n,
            n == name@.len(),
            depth <= i,
            scanned(name@.take(i as int)) == Some((depth as int, segment)),
        decreases n - i,
    {
        let c = name.get_char(i);
        proof {
            assert(name@.take(i + 1).drop_last() =~= name@.take(i as int));
            assert(name@.take(i + 1).last() == c);
            lemma_scanned_depth(name@.take(i as int));
        }
        if c == '/' || c == '\\' {
            match segment {
                Segment::Empty | Segment::Dot => {},
                Segment::DotDot => {
                    if depth == 0 {
                        proof {
                            assert(scanned(name@.take(i + 1)) is None);
                            assert(name@.take(i + 1) + name@.skip(i + 1) =~= name@);
                            lemma_escape_is_final(name@.take(i + 1), name@.skip(i + 1));
                        }
                        return false;
                    }
                    depth = depth - 1;
                },
                Segment::Name => {
                    depth = depth + 1;
                },
            }
            segment = Segment::Empty;
        } else {
            segment = match segment {
                Segment::Empty => if c == '.' {
                    Segment::Dot
                } else {
                    Segment::Name
                },
                Segment::Dot => if c == '.' {
                    Segment::DotDot
                } else {
                    Segment::Name
                },
                _ => Segment::Name,
            };
        }
        i += 1;
    }
    proof {
        assert(name@.take(i as int) =~= name@);
    }
    match segment {
        Segment::DotDot => depth > 0,
        _ => true,
    }
}

} // verus!
