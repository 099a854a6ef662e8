//! The policy that governs one resolution.

use vstd::prelude::*;

verus! {

/// Widest image accepted unless configured otherwise, in pixels.
pub const DEFAULT_MAX_WIDTH: usize = 2048;

/// Tallest image accepted unless configured otherwise, in pixels.
pub const DEFAULT_MAX_HEIGHT: usize = DEFAULT_MAX_WIDTH;

/// Largest payload accepted unless configured otherwise: 6 MiB.
pub const DEFAULT_MAX_SIZE: usize = 6291456;

/// The content types of still images.
pub const ALLOWED_CONTENT_TYPES: [&'static str; 4] = [
    "image/png",
    "image/jpeg",
    "image/jpg",
    "image/webp",
];

/// The file-name endings of still images.
pub const ALLOWED_SUFFIXES: [&'static str; 4] = [".png", ".jpeg", ".jpg", ".webp"];

/// The content types that a policy accepts: those of still images, and that of GIF where
/// animated images are allowed.
pub open spec fn content_types(allow_gifs: bool) -> Seq<Seq<char>> {
    let still = seq!["image/png"@, "image/jpeg"@, "image/jpg"@, "image/webp"@];
    if allow_gifs {
        still.push("image/gif"@)
    } else {
        still
    }
}

/// The file-name endings that a policy accepts: those of still images, and that of GIF
/// where animated images are allowed.
pub open spec fn suffixes(allow_gifs: bool) -> Seq<Seq<char>> {
    let still = seq![".png"@, ".jpeg"@, ".jpg"@, ".webp"@];
    if allow_gifs {
        still.push(".gif"@)
    } else {
        still
    }
}

/// Policy of a resolution. Built once, adjusted through the setters, then only read.
#[derive(Clone, Copy, Debug, PartialEq, Eq)]
pub struct ImageResolver {
    /// Animated images are accepted.
    pub allow_gifs: bool,
    /// The sender's profile picture may stand in for an image.
    pub allow_user_avatars: bool,
    /// The profile picture is tried when the message offers nothing else.
    pub fallback_to_user_avatar: bool,
    /// The text of a query is looked up as a member and as an emoji.
    pub run_conversions: bool,
    /// Ceiling on the width of an attachment, in pixels.
    pub max_width: usize,
    /// Ceiling on the height of an attachment, in pixels.
    pub max_height: usize,
    /// Ceiling on the size of a payload, in bytes.
    pub max_size: usize,
}

impl ImageResolver {
    /// The default policy: everything allowed, within the default ceilings.
    pub fn new() -> (r: Self)
        ensures
            r == (ImageResolver {
                allow_gifs: true,
                allow_user_avatars: true,
                fallback_to_user_avatar: true,
                run_conversions: true,
                max_width: DEFAULT_MAX_WIDTH,
                max_height: DEFAULT_MAX_HEIGHT,
                max_size: DEFAULT_MAX_SIZE,
            }),
    {
        ImageResolver {
            allow_gifs: true,
            allow_user_avatars: true,
            fallback_to_user_avatar: true,
            run_conversions: true,
            max_width: DEFAULT_MAX_WIDTH,
            max_height: DEFAULT_MAX_HEIGHT,
            max_size: DEFAULT_MAX_SIZE,
        }
    }

    /// Stops accepting animated images.
    pub fn disallow_gifs(&mut self) -> (r: &mut Self)
        ensures
            *r == (ImageResolver { allow_gifs: false, ..*old(self) }),
            *final(self) == *final(r),
    {
        self.allow_gifs = false;
        self
    }

    /// Forbids the sender's profile picture as an image.
    pub fn disallow_user_avatars(&mut self) -> (r: &mut Self)
        ensures
            *r == (ImageResolver { allow_user_avatars: false, ..*old(self) }),
            *final(self) == *final(r),
    {
        self.allow_user_avatars = false;
        self
    }

    /// Stops trying the profile picture when the message offers nothing else.
    pub fn disable_fallback_to_user_avatar(&mut self) -> (r: &mut Self)
        ensures
            *r == (ImageResolver { fallback_to_user_avatar: false, ..*old(self) }),
            *final(self) == *final(r),
    {
        self.fallback_to_user_avatar = false;
        self
    }

    /// Stops looking the text of a query up as a member or an emoji.
    pub fn disable_conversions(&mut self) -> (r: &mut Self)
        ensures
            *r == (ImageResolver { run_conversions: false, ..*old(self) }),
            *final(self) == *final(r),
    {
        self.run_conversions = false;
        self
    }

    /// Sets the ceiling on the width of an attachment.
    pub fn max_width(&mut self, width: usize) -> (r: &mut Self)
        ensures
            *r == (ImageResolver { max_width: width, ..*old(self) }),
            *final(self) == *final(r),
    {
        self.max_width = width;
        self
    }

    /// Sets the ceiling on the height of an attachment.
    pub fn max_height(&mut self, height: usize) -> (r: &mut Self)
        ensures
            *r == (ImageResolver { max_height: height, ..*old(self) }),
            *final(self) == *final(r),
    {
        self.max_height = height;
        self
    }

    /// Sets the ceiling on the size of a payload.
    pub fn max_size(&mut self, size: usize) -> (r: &mut Self)
        ensures
            *r == (ImageResolver { max_size: size, ..*old(self) }),
            *final(self) == *final(r),
    {
        self.max_size = size;
        self
    }

    /// The content types that this policy accepts.
    pub fn allowed_content_types(&self) -> (r: Vec<&'static str>)
        ensures
            r.deep_view() == content_types(self.allow_gifs),
    {
        let mut list: Vec<&'static str> = Vec::new();
        let mut i: usize = 0;
        while i < 4
            invariant
                i <= 4,
                list.len() == i,
                forall|j: int| 0 <= j < i ==> list@[j]@ == ALLOWED_CONTENT_TYPES@[j]@,
            decreases 4 - i,
        {
            list.push(ALLOWED_CONTENT_TYPES[i]);
            i += 1;
        }
        if self.allow_gifs {
            list.push("image/gif");
        }
        assert(list.deep_view() =~= content_types(self.allow_gifs));
        list
    }

    /// The file-name endings that this policy accepts.
    pub fn allowed_suffixes(&self) -> (r: Vec<&'static str>)
        ensures
            r.deep_view() == suffixes(self.allow_gifs),
    {
        let mut list: Vec<&'static str> = Vec::new();
        let mut i: usize = 0;
        while i < 4
            invariant
                i <= 4,
                list.len() == i,
                forall|j: int| 0 <= j < i ==> list@[j]@ == ALLOWED_SUFFIXES@[j]@,
            decreases 4 - i,
        {
            list.push(ALLOWED_SUFFIXES[i]);
            i += 1;
        }
        if self.allow_gifs {
            list.push(".gif");
        }
        assert(list.deep_view() =~= suffixes(self.allow_gifs));
        list
    }
}

} // verus!
