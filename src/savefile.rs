use vstd::prelude::*;

verus! {

/// A costume image of a saved project.
#[derive(Debug, Clone, PartialEq, Eq)]
pub enum Image {
    SVG(Vec<u8>),
    PNG(Vec<u8>),
}

pub open spec fn ends_with(s: Seq<char>, suffix: Seq<char>) -> bool {
    s.len() >= suffix.len() && s.subrange(s.len() - suffix.len(), s.len() as int) == suffix
}

fn has_suffix(s: &str, suffix: &str) -> (r: bool)
    ensures
        r == ends_with(s@, suffix@),
{
    let n = s.unicode_len();
    let m = suffix.unicode_len();
    if n < m {
        return false;
    }
    let tail = s.substring_char(n - m, n);
    crate::block::text_eq(tail, suffix)
}

/// The image an archive entry holds, judged by its name; `None` for entries that are no
/// image.
pub fn image_of(name: &str, bytes: Vec<u8>) -> (r: Option<Image>)
    ensures
        ends_with(name@, ".svg"@) ==> r == Some(Image::SVG(bytes)),
        !ends_with(name@, ".svg"@) && ends_with(name@, ".png"@) ==> r == Some(Image::PNG(bytes)),
        !ends_with(name@, ".svg"@) && !ends_with(name@, ".png"@) ==> r is None,
{
    if has_suffix(name, ".svg") {
        Some(Image::SVG(bytes))
    } else if has_suffix(name, ".png") {
        Some(Image::PNG(bytes))
    } else {
        None
    }
}

} // verus!
