//! The kinds of link that a page can hold, and the rule by which the kind of
//! a link follows from the element that carries it.

use vstd::prelude::*;

verus! {

/// `<str as PartialEq>::eq` holds exactly of two strings with the same
/// characters.
pub assume_specification[ <str as PartialEq>::eq ](a: &str, b: &str) -> (same: bool)
    ensures
        same == (a@ == b@),
;

/// `str::eq_ignore_ascii_case` holds exactly of two strings that are equal
/// once the ASCII letters of both are taken to lower case.
pub assume_specification[ str::eq_ignore_ascii_case ](a: &str, b: &str) -> (same: bool)
    ensures
        same == (ascii_lowered(a@) == ascii_lowered(b@)),
;

/// `c` with an ASCII capital letter replaced by its small letter.
pub open spec fn ascii_lower(c: char) -> char {
    if 'A' <= c <= 'Z' {
        ((c as u8) + 32) as char
    } else {
        c
    }
}

/// `s` with each ASCII capital letter replaced by its small letter.
pub open spec fn ascii_lowered(s: Seq<char>) -> Seq<char> {
    s.map_values(|c: char| ascii_lower(c))
}

/// The type of a discovered link.
#[derive(Debug, Clone, PartialEq, Eq, Hash)]
pub enum LinkType {
    /// A link to another web page.
    Page,
    /// A link to a script file.
    Script,
    /// A link to a stylesheet.
    Stylesheet,
    /// A link to an image.
    Image,
    /// A link to a media file (audio or video).
    Media,
    /// A link to another type of resource.
    Other(String),
}

/// A `LinkType` with the text of `Other` as a sequence of characters.
pub enum LinkKind {
    Page,
    Script,
    Stylesheet,
    Image,
    Media,
    Other(Seq<char>),
}

impl View for LinkType {
    type V = LinkKind;

    open spec fn view(&self) -> LinkKind {
        match self {
            LinkType::Page => LinkKind::Page,
            LinkType::Script => LinkKind::Script,
            LinkType::Stylesheet => LinkKind::Stylesheet,
            LinkType::Image => LinkKind::Image,
            LinkType::Media => LinkKind::Media,
            LinkType::Other(s) => LinkKind::Other(s@),
        }
    }
}

/// The kind of a link carried by an element named `name`, where the kind of
/// a `link` element is fixed by `link_kind`.
pub open spec fn kind_by_name(name: Seq<char>, link_kind: LinkKind) -> LinkKind {
    if name == "a"@ {
        LinkKind::Page
    } else if name == "link"@ {
        link_kind
    } else if name == "script"@ {
        LinkKind::Script
    } else if name == "img"@ {
        LinkKind::Image
    } else if name == "audio"@ || name == "video"@ || name == "source"@ {
        LinkKind::Media
    } else {
        LinkKind::Other(name)
    }
}

/// The kind of a `link` element with the given `rel` attribute: a
/// stylesheet where `rel` says so in whatever case, else what `rel` says,
/// and `link` where the attribute is missing.
pub open spec fn kind_by_rel(rel: Option<Seq<char>>) -> LinkKind {
    match rel {
        Some(r) => if ascii_lowered(r) == ascii_lowered("stylesheet"@) {
            LinkKind::Stylesheet
        } else {
            LinkKind::Other(r)
        },
        None => LinkKind::Other("link"@),
    }
}

/// The elements of a page that carry links, each as a CSS selector with the
/// attribute that holds the target.
pub open spec fn link_sources_of() -> Seq<(Seq<char>, Seq<char>)> {
    seq![
        ("a[href]"@, "href"@),
        ("link[href]"@, "href"@),
        ("script[src]"@, "src"@),
        ("img[src]"@, "src"@),
        ("audio[src]"@, "src"@),
        ("video[src]"@, "src"@),
        ("source[src]"@, "src"@),
    ]
}

/// The selectors, with their attributes, by which links are looked for in a
/// page.
pub fn link_sources() -> (sources: Vec<(&'static str, &'static str)>)
    ensures
        sources@.map_values(|s: (&'static str, &'static str)| (s.0@, s.1@)) == link_sources_of(),
{
    let sources = vec![
        ("a[href]", "href"),
        ("link[href]", "href"),
        ("script[src]", "src"),
        ("img[src]", "src"),
        ("audio[src]", "src"),
        ("video[src]", "src"),
        ("source[src]", "src"),
    ];
    assert(sources@.map_values(|s: (&'static str, &'static str)| (s.0@, s.1@))
        =~= link_sources_of());
    sources
}

impl LinkType {
    /// The type of a link found in a parsed page on an element named `name`
    /// whose `rel` attribute, if it has one, is `rel`.
    pub fn of_element(name: &str, rel: Option<&str>) -> (link_type: LinkType)
        ensures
            link_type@ == kind_by_name(
                name@,
                kind_by_rel(
                    match rel {
                        Some(r) => Some(r@),
                        None => None,
                    },
                ),
            ),
    {
        if name.eq("link") {
            proof {
                reveal_strlit("a");
                reveal_strlit("link");
                assert("a"@.len() == 1 && "link"@.len() == 4);
            }
            match rel {
                Some(r) => if r.eq_ignore_ascii_case("stylesheet") {
                    LinkType::Stylesheet
                } else {
                    LinkType::Other(r.to_owned())
                },
                None => LinkType::Other("link".to_owned()),
            }
        } else {
            LinkType::by_name(name, LinkType::Stylesheet)
        }
    }

    /// The type of a link found in a streamed page on an element named
    /// `name`: as in a parsed page, but every `link` element counts as a
    /// stylesheet.
    pub fn of_streamed_element(name: &str) -> (link_type: LinkType)
        ensures
            link_type@ == kind_by_name(name@, LinkKind::Stylesheet),
    {
        LinkType::by_name(name, LinkType::Stylesheet)
    }

    fn by_name(name: &str, for_link: LinkType) -> (link_type: LinkType)
        ensures
            link_type@ == kind_by_name(name@, for_link@),
    {
        if name.eq("a") {
            LinkType::Page
        } else if name.eq("link") {
            for_link
        } else if name.eq("script") {
            LinkType::Script
        } else if name.eq("img") {
            LinkType::Image
        } else if name.eq("audio") || name.eq("video") || name.eq("source") {
            LinkType::Media
        } else {
            LinkType::Other(name.to_owned())
        }
    }
}

} // verus!
