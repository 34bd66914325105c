//! The documents that Last.fm answers with, and how they become ours.
use crate::meta_providers::models::{AlbumMeta, ImageMeta, ImageSize, Tag, Wiki, WikiView};
use crate::text::{
    chars_of, last_index, occurs_at, occurs_last_at, rfind, same, trim, trimmed,
};
use vstd::prelude::*;

verus! {

/// The list of tags comes nested in an object of its own.
#[derive(Debug)]
pub struct NestedTagList {
    pub tag: Vec<Tag>,
}

/// Where there are no tags, Last.fm sends an empty string instead of a list.
#[derive(Debug)]
pub enum TagsHelper {
    String(String),
    Nested(NestedTagList),
}

/// An image, with the name of its size.
#[derive(Debug)]
pub struct LastfmImage {
    pub size: String,
    pub url: String,
}

/// The size that a name stands for. Covers on Last.fm only go up to 300x300,
/// so all larger sizes are the same.
pub open spec fn size_named(name: Seq<char>) -> ImageSize {
    if name == "small"@ {
        ImageSize::Small
    } else if name == "medium"@ {
        ImageSize::Medium
    } else {
        ImageSize::Large
    }
}

impl LastfmImage {
    /// The image as one of ours.
    pub fn into(self) -> (r: ImageMeta)
        ensures
            r.size == size_named(self.size@),
            r.url == self.url,
    {
        let size: ImageSize = if same(self.size.as_str(), "small") {
            ImageSize::Small
        } else if same(self.size.as_str(), "medium") {
            ImageSize::Medium
        } else {
            ImageSize::Large
        };
        ImageMeta { size, url: self.url }
    }
}

/// An article. Its last link is the one to read on, and what follows that link
/// is the licence.
#[derive(Debug)]
pub struct LastfmWiki {
    pub content: String,
}

/// Stands in where the licence of a text cannot be told.
pub open spec fn unknown_licence() -> Seq<char> {
    "Unable to parse licensing information for this text. Please refer to Last.fm's ToS for licensing terms."@
}

/// The opening tag of the last link.
pub open spec fn link_start(content: Seq<char>) -> Option<int> {
    last_index(content, "<a href"@)
}

/// The last closing tag that ends a sentence.
pub open spec fn link_end(content: Seq<char>) -> Option<int> {
    last_index(content, "</a>."@)
}

/// The text from the opening to the closing tag.
pub open spec fn link_tag(content: Seq<char>) -> Seq<char> {
    content.subrange(link_start(content)->0, link_end(content)->0)
}

/// If there are both tags, the closing one comes after the opening one, and
/// there are two quotes between them.
pub open spec fn link_is_readable(content: Seq<char>) -> bool {
    link_start(content) is Some && link_end(content) is Some ==> {
        &&& link_start(content)->0 <= link_end(content)->0
        &&& link_tag(content).contains('"')
        &&& link_tag(content).index_of_first('"')->0 < link_tag(content).index_of_last('"')->0
    }
}

/// The article as one of ours. With a complete link, the text before it is the
/// content, the link its URL, and the text behind it the licence.
pub open spec fn wiki_of(content: Seq<char>) -> WikiView {
    match (link_start(content), link_end(content)) {
        (Some(start), Some(end)) => {
            let tag = link_tag(content);
            WikiView {
                content: trimmed(content.take(start)),
                url: Some(
                    trimmed(
                        tag.subrange(tag.index_of_first('"')->0 + 1, tag.index_of_last('"')->0),
                    ),
                ),
                attribution: trimmed(content.skip(end + 5)),
            }
        },
        (Some(start), None) => WikiView {
            content: content.take(start),
            url: None,
            attribution: unknown_licence(),
        },
        (None, _) => WikiView { content, url: None, attribution: unknown_licence() },
    }
}

/// The positions of the first and of the last quote between two others.
fn quotes(chars: &Vec<char>, from: usize, to: usize) -> (r: Option<(usize, usize)>)
    requires
        from <= to <= chars.len(),
    ensures
        match r {
            Some((first, last)) => {
                let tag = chars@.subrange(from as int, to as int);
                &&& from <= first <= last < to
                &&& tag.contains('"')
                &&& tag.index_of_first('"') == Some(first - from)
                &&& tag.index_of_last('"') == Some(last - from)
            },
            None => !chars@.subrange(from as int, to as int).contains('"'),
        },
{
    let ghost tag = chars@.subrange(from as int, to as int);
    proof {
        tag.index_of_first_ensures('"');
        tag.index_of_last_ensures('"');
    }
    let mut first: usize = from;
    while first < to && chars[first] != '"'
        invariant
            from <= first <= to <= chars.len(),
            tag == chars@.subrange(from as int, to as int),
            forall|i: int| 0 <= i < first - from ==> tag[i] != '"',
        decreases to - first,
    {
        assert(tag[first - from] == chars@[first as int]);
        first = first + 1;
    }
    if first == to {
        return None;
    }
    assert(tag[first - from] == '"');
    assert(tag.contains('"'));
    let mut last: usize = to - 1;
    while chars[last] != '"'
        invariant
            from <= first <= last < to <= chars.len(),
            tag == chars@.subrange(from as int, to as int),
            tag[first - from] == '"',
            forall|i: int| last - from < i < tag.len() ==> tag[i] != '"',
        decreases last,
    {
        assert(tag[last - from] == chars@[last as int]);
        last = last - 1;
    }
    assert(tag[last - from] == '"');
    Some((first, last))
}

fn opening_tag() -> (r: Vec<char>)
    ensures
        r@ == "<a href"@,
        r.len() > 0,
{
    proof {
        reveal_strlit("<a href");
    }
    chars_of("<a href")
}

fn closing_tag() -> (r: Vec<char>)
    ensures
        r@ == "</a>."@,
        r.len() == 5,
{
    proof {
        reveal_strlit("</a>.");
    }
    chars_of("</a>.")
}

fn licence_is_unknown() -> (r: String)
    ensures
        r@ == unknown_licence(),
{
    "Unable to parse licensing information for this text. Please refer to Last.fm's ToS for licensing terms.".to_owned()
}

impl LastfmWiki {
    /// Whether the article can be taken apart.
    pub fn has_readable_link(&self) -> (r: bool)
        ensures
            r == link_is_readable(self.content@),
    {
        let chars: Vec<char> = chars_of(self.content.as_str());
        match (rfind(&chars, &opening_tag()), rfind(&chars, &closing_tag())) {
            (Some(start), Some(end)) => if start <= end {
                match quotes(&chars, start, end) {
                    Some((first, last)) => first < last,
                    None => false,
                }
            } else {
                false
            },
            _ => true,
        }
    }

    /// The article as one of ours.
    pub fn into(self) -> (r: Wiki)
        requires
            link_is_readable(self.content@),
        ensures
            r@ == wiki_of(self.content@),
    {
        let chars: Vec<char> = chars_of(self.content.as_str());
        match rfind(&chars, &opening_tag()) {
            Some(start) => match rfind(&chars, &closing_tag()) {
                Some(end) => {
                    let content: &str = self.content.as_str();
                    let n: usize = chars.len();
                    let url: Option<String> = match quotes(&chars, start, end) {
                        Some((first, last)) => {
                            let ghost tag = link_tag(self.content@);
                            assert(self.content@.subrange(first + 1, last as int) =~= tag.subrange(
                                first - start + 1,
                                last - start,
                            ));
                            Some(trim(content.substring_char(first + 1, last)))
                        },
                        None => None,
                    };
                    assert(self.content@.subrange(0, start as int) =~= self.content@.take(
                        start as int,
                    ));
                    assert(self.content@.subrange(end + 5, n as int) =~= self.content@.skip(end + 5));
                    Wiki {
                        content: trim(content.substring_char(0, start)),
                        url,
                        attribution: trim(content.substring_char(end + 5, n)),
                    }
                },
                None => {
                    assert(self.content@.subrange(0, start as int) =~= self.content@.take(
                        start as int,
                    ));
                    Wiki {
                        content: self.content.as_str().substring_char(0, start).to_owned(),
                        url: None,
                        attribution: licence_is_unknown(),
                    }
                },
            },
            None => Wiki { content: self.content, url: None, attribution: licence_is_unknown() },
        }
    }
}

/// An album.
#[derive(Debug)]
pub struct LastfmAlbum {
    pub artist: String,
    /// Not returned again if it was what the query went by.
    pub mbid: Option<String>,
    pub tags: TagsHelper,
    pub image: Vec<LastfmImage>,
    pub url: String,
    pub name: String,
    pub wiki: Option<LastfmWiki>,
}

impl LastfmAlbum {
    /// The article, if any, can be taken apart.
    pub open spec fn wf(self) -> bool {
        self.wiki matches Some(wiki) ==> link_is_readable(wiki.content@)
    }

    /// Whether the article, if any, can be taken apart.
    pub fn is_readable(&self) -> (r: bool)
        ensures
            r == self.wf(),
    {
        match &self.wiki {
            Some(wiki) => wiki.has_readable_link(),
            None => true,
        }
    }

    /// `meta` is what the album says.
    pub open spec fn becomes(self, meta: AlbumMeta) -> bool {
        &&& meta.name == self.name
        &&& meta.artist == Some(self.artist)
        &&& meta.mbid == self.mbid
        &&& meta.tags@ == (match self.tags {
            TagsHelper::String(_) => Seq::empty(),
            TagsHelper::Nested(list) => list.tag@,
        })
        &&& meta.image.len() == self.image.len()
        &&& forall|i: int|
            0 <= i < self.image.len() ==> (#[trigger] meta.image@[i]).size == size_named(
                self.image@[i].size@,
            ) && meta.image@[i].url == self.image@[i].url
        &&& meta.url == Some(self.url)
        &&& match self.wiki {
            Some(wiki) => meta.wiki is Some && meta.wiki->0@ == wiki_of(wiki.content@),
            None => meta.wiki is None,
        }
    }

    /// The album as one of ours.
    pub fn into(self) -> (r: AlbumMeta)
        requires
            self.wf(),
        ensures
            self.becomes(r),
    {
        let tags: Vec<Tag> = match self.tags {
            TagsHelper::String(_) => Vec::new(),
            TagsHelper::Nested(list) => list.tag,
        };
        let ghost images = self.image@;
        let mut image: Vec<ImageMeta> = Vec::new();
        for entry in it: self.image.into_iter()
            invariant
                it.seq() == images,
                image.len() == it.index(),
                forall|i: int|
                    0 <= i < image.len() ==> (#[trigger] image@[i]).size == size_named(
                        images[i].size@,
                    ) && image@[i].url == images[i].url,
        {
            image.push(entry.into());
        }
        let wiki: Option<Wiki> = match self.wiki {
            Some(w) => Some(w.into()),
            None => None,
        };
        AlbumMeta {
            name: self.name,
            artist: Some(self.artist),
            mbid: self.mbid,
            tags,
            image,
            url: Some(self.url),
            wiki,
        }
    }
}

/// The album comes in an object with a single field.
#[derive(Debug)]
pub struct LastfmAlbumResponse {
    pub album: LastfmAlbum,
}

/// Images named small or medium are of that size, and all others are large; each
/// keeps its address.
pub proof fn images_keep_size_and_address(image: LastfmImage, r: ImageMeta)
    requires
        call_ensures(LastfmImage::into, (image,), r),
    ensures
        r.url == image.url,
        r.size == ImageSize::Small <==> image.size@ == "small"@,
        r.size == ImageSize::Medium <==> image.size@ == "medium"@,
        r.size == ImageSize::Large <==> image.size@ != "small"@ && image.size@ != "medium"@,
{
    reveal_strlit("small");
    reveal_strlit("medium");
    assert("small"@.len() == 5);
    assert("medium"@.len() == 6);
}

proof fn last_place(s: Seq<char>, pat: Seq<char>, i: int)
    requires
        0 <= i,
        i + pat.len() <= s.len(),
        s.subrange(i, i + pat.len()) == pat,
        forall|j: int|
            i < j && j + pat.len() <= s.len() ==> #[trigger] s.subrange(j, j + pat.len()) != pat,
    ensures
        last_index(s, pat) == Some(i),
{
    assert(occurs_at(s, pat, i));
    assert forall|j: int| #[trigger] occurs_at(s, pat, j) implies j <= i by {
        if i < j {
            assert(s.subrange(j, j + pat.len()) != pat);
        }
    }
    assert(occurs_last_at(s, pat, i));
    let k = choose|k: int| occurs_last_at(s, pat, k);
    assert(occurs_last_at(s, pat, k));
    assert(occurs_at(s, pat, k));
}

proof fn link_parts(text: Seq<char>, before: Seq<char>, tag: Seq<char>, behind: Seq<char>)
    requires
        text == before + tag + "</a>."@ + behind,
        "<a href"@.len() <= tag.len(),
        tag.take("<a href"@.len() as int) == "<a href"@,
        forall|j: int|
            before.len() < j && j + "<a href"@.len() <= text.len() ==> #[trigger] text.subrange(
                j,
                j + "<a href"@.len(),
            ) != "<a href"@,
        forall|j: int|
            text.len() - behind.len() - "</a>."@.len() < j && j + "</a>."@.len() <= text.len()
                ==> #[trigger] text.subrange(j, j + "</a>."@.len()) != "</a>."@,
    ensures
        link_start(text) == Some(before.len() as int),
        link_end(text) == Some((before.len() + tag.len()) as int),
        link_tag(text) == tag,
        text.take(before.len() as int) == before,
        text.skip((before.len() + tag.len()) as int + 5) == behind,
{
    reveal_strlit("</a>.");
    let start = before.len() as int;
    let end = (before.len() + tag.len()) as int;
    assert("</a>."@.len() == 5);
    assert(text.subrange(start, start + "<a href"@.len()) =~= tag.take(
        "<a href"@.len() as int,
    ));
    assert(text.subrange(end, end + 5) =~= "</a>."@);
    last_place(text, "<a href"@, start);
    last_place(text, "</a>."@, end);
    assert(text.subrange(start, end) =~= tag);
    assert(text.take(start) =~= before);
    assert(text.skip(end + 5) =~= behind);
}

proof fn no_quotes_before(opening: Seq<char>)
    requires
        !opening.contains('"'),
    ensures
        !("<a href"@ + opening).contains('"'),
        ("<a href"@ + opening).take("<a href"@.len() as int) == "<a href"@,
{
    reveal_strlit("<a href");
    let front = "<a href"@ + opening;
    assert(front.take("<a href"@.len() as int) =~= "<a href"@);
    if front.contains('"') {
        let i = choose|i: int| 0 <= i < front.len() && front[i] == '"';
        if i >= "<a href"@.len() {
            assert(opening[i - "<a href"@.len()] == '"');
        }
    }
}

proof fn quoted_part(front: Seq<char>, address: Seq<char>, label: Seq<char>)
    requires
        !front.contains('"'),
        !label.contains('"'),
    ensures
        ({
            let tag = front + seq!['"'] + address + seq!['"'] + label;
            &&& tag.contains('"')
            &&& tag.index_of_first('"') == Some(front.len() as int)
            &&& tag.index_of_last('"') == Some((front.len() + 1 + address.len()) as int)
            &&& tag.subrange(front.len() as int + 1, (front.len() + 1 + address.len()) as int)
                == address
        }),
{
    let tag = front + seq!['"'] + address + seq!['"'] + label;
    let first = front.len() as int;
    let last = (front.len() + 1 + address.len()) as int;
    assert(tag[first] == '"');
    assert(tag[last] == '"');
    assert forall|i: int| 0 <= i < first implies tag[i] != '"' by {
        assert(tag[i] == front[i]);
        assert(front.contains(front[i]));
    }
    assert forall|i: int| last < i < tag.len() implies tag[i] != '"' by {
        assert(tag[i] == label[i - last - 1]);
        assert(label.contains(label[i - last - 1]));
    }
    assert(tag.contains('"'));
    tag.index_of_first_ensures('"');
    tag.index_of_last_ensures('"');
    assert(tag.subrange(first + 1, last) =~= address);
}

/// An article that ends with a link is taken apart there: what comes before the
/// last link is the content, the address in the quotes is the link, and what comes
/// behind the link is the licence, each without the white space around it.
pub proof fn the_last_link_is_cut_out(
    wiki: LastfmWiki,
    r: Wiki,
    before: &str,
    opening: Seq<char>,
    address: &str,
    label: Seq<char>,
    behind: &str,
    content: String,
    url: String,
    licence: String,
)
    requires
        call_ensures(LastfmWiki::into, (wiki,), r),
        call_ensures(trim, (before,), content),
        call_ensures(trim, (address,), url),
        call_ensures(trim, (behind,), licence),
        wiki.content@ == before@ + "<a href"@ + opening + seq!['"'] + address@ + seq!['"'] + label
            + "</a>."@ + behind@,
        !opening.contains('"'),
        !label.contains('"'),
        forall|j: int|
            before@.len() < j && j + "<a href"@.len() <= wiki.content@.len()
                ==> #[trigger] wiki.content@.subrange(j, j + "<a href"@.len()) != "<a href"@,
        forall|j: int|
            wiki.content@.len() - behind@.len() - "</a>."@.len() < j && j + "</a>."@.len()
                <= wiki.content@.len() ==> #[trigger] wiki.content@.subrange(
                j,
                j + "</a>."@.len(),
            ) != "</a>."@,
    ensures
        r.content@ == content@,
        r.url is Some && r.url->0@ == url@,
        r.attribution@ == licence@,
{
    let text = wiki.content@;
    let front = "<a href"@ + opening;
    let tag = front + seq!['"'] + address@ + seq!['"'] + label;
    assert(text =~= before@ + tag + "</a>."@ + behind@);
    assert(tag.take("<a href"@.len() as int) =~= "<a href"@);
    no_quotes_before(opening);
    link_parts(text, before@, tag, behind@);
    quoted_part(front, address@, label);
    assert(r@ == wiki_of(text));
    assert(r@.url == crate::text::opt_view(r.url));
    assert(r@.content == r.content@);
    assert(r@.attribution == r.attribution@);
}

/// An article without a link stands as it is, with a note that its licence is not
/// known; so does what comes before a link that does not end.
pub proof fn articles_without_a_link_stand(wiki: LastfmWiki, r: Wiki, start: int)
    requires
        call_ensures(LastfmWiki::into, (wiki,), r),
        forall|j: int|
            0 <= j && j + "</a>."@.len() <= wiki.content@.len() ==> #[trigger] wiki.content@.subrange(
                j,
                j + "</a>."@.len(),
            ) != "</a>."@,
        start == -1 || 0 <= start && start + "<a href"@.len() <= wiki.content@.len()
            && wiki.content@.subrange(start, start + "<a href"@.len()) == "<a href"@,
        forall|j: int|
            start < j && 0 <= j && j + "<a href"@.len() <= wiki.content@.len()
                ==> #[trigger] wiki.content@.subrange(j, j + "<a href"@.len()) != "<a href"@,
    ensures
        start == -1 ==> r.content@ == wiki.content@,
        start >= 0 ==> r.content@ == wiki.content@.take(start),
        r.url is None,
        r.attribution@
            == "Unable to parse licensing information for this text. Please refer to Last.fm's ToS for licensing terms."@,
{
    let text = wiki.content@;
    assert forall|i: int| !occurs_at(text, "</a>."@, i) by {
        if occurs_at(text, "</a>."@, i) {
            assert(text.subrange(i, i + "</a>."@.len()) != "</a>."@);
        }
    }
    if start >= 0 {
        last_place(text, "<a href"@, start);
    } else {
        assert forall|i: int| !occurs_at(text, "<a href"@, i) by {
            if occurs_at(text, "<a href"@, i) {
                assert(text.subrange(i, i + "<a href"@.len()) != "<a href"@);
            }
        }
    }
}

/// An album says of itself its name, its artist, its address, and its ID, tags,
/// images and article where it has them.
pub proof fn albums_say_what_they_hold(album: LastfmAlbum, r: AlbumMeta)
    requires
        album.wf(),
        call_ensures(LastfmAlbum::into, (album,), r),
    ensures
        r.name == album.name,
        r.artist == Some(album.artist),
        r.url == Some(album.url),
        r.mbid == album.mbid,
        album.tags is String ==> r.tags@.len() == 0,
        album.tags matches TagsHelper::Nested(list) ==> r.tags@ == list.tag@,
        r.image@.len() == album.image@.len(),
        r.wiki is Some <==> album.wiki is Some,
{
}

/// The article and the images of an album are those that it holds.
pub proof fn albums_keep_article_and_images(
    album: LastfmAlbum,
    r: AlbumMeta,
    article: Wiki,
    i: int,
    image: ImageMeta,
)
    requires
        album.wf(),
        call_ensures(LastfmAlbum::into, (album,), r),
        album.wiki is Some,
        call_ensures(LastfmWiki::into, (album.wiki->0,), article),
        0 <= i < album.image@.len(),
        call_ensures(LastfmImage::into, (album.image@[i],), image),
    ensures
        r.wiki is Some && r.wiki->0.content@ == article.content@ && r.wiki->0.attribution@
            == article.attribution@,
        r.wiki->0@ == article@,
        r.image@[i].url == image.url,
        r.image@[i].size == image.size,
{
    assert(r.wiki->0@ == article@);
    assert(r.wiki->0@.content == article@.content);
    assert(r.wiki->0@.attribution == article@.attribution);
}

/// An album without an article can be read, one with an article if that can be
/// taken apart.
pub proof fn readable_albums_have_readable_articles(
    album: &LastfmAlbum,
    readable: bool,
    article: bool,
)
    requires
        call_ensures(LastfmAlbum::is_readable, (album,), readable),
        album.wiki is Some ==> call_ensures(
            LastfmWiki::has_readable_link,
            (&album.wiki->0,),
            article,
        ),
    ensures
        album.wiki is None ==> readable,
        album.wiki is Some ==> readable == article,
{
}

/// An article whose last link is complete can be taken apart.
pub proof fn complete_links_can_be_taken_apart(
    wiki: &LastfmWiki,
    readable: bool,
    before: Seq<char>,
    opening: Seq<char>,
    address: Seq<char>,
    label: Seq<char>,
    behind: Seq<char>,
)
    requires
        call_ensures(LastfmWiki::has_readable_link, (wiki,), readable),
        wiki.content@ == before + "<a href"@ + opening + seq!['"'] + address + seq!['"'] + label
            + "</a>."@ + behind,
        !opening.contains('"'),
        !label.contains('"'),
        forall|j: int|
            before.len() < j && j + "<a href"@.len() <= wiki.content@.len()
                ==> #[trigger] wiki.content@.subrange(j, j + "<a href"@.len()) != "<a href"@,
        forall|j: int|
            wiki.content@.len() - behind.len() - "</a>."@.len() < j && j + "</a>."@.len()
                <= wiki.content@.len() ==> #[trigger] wiki.content@.subrange(
                j,
                j + "</a>."@.len(),
            ) != "</a>."@,
    ensures
        readable,
{
    let text = wiki.content@;
    let front = "<a href"@ + opening;
    let tag = front + seq!['"'] + address + seq!['"'] + label;
    assert(text =~= before + tag + "</a>."@ + behind);
    assert(tag.take("<a href"@.len() as int) =~= "<a href"@);
    no_quotes_before(opening);
    link_parts(text, before, tag, behind);
    quoted_part(front, address, label);
}

/// A link without an address in quotes cannot be read.
pub proof fn links_need_an_address(
    wiki: &LastfmWiki,
    readable: bool,
    before: Seq<char>,
    opening: Seq<char>,
    behind: Seq<char>,
)
    requires
        call_ensures(LastfmWiki::has_readable_link, (wiki,), readable),
        wiki.content@ == before + ("<a href"@ + opening) + "</a>."@ + behind,
        !opening.contains('"'),
        forall|j: int|
            before.len() < j && j + "<a href"@.len() <= wiki.content@.len()
                ==> #[trigger] wiki.content@.subrange(j, j + "<a href"@.len()) != "<a href"@,
        forall|j: int|
            wiki.content@.len() - behind.len() - "</a>."@.len() < j && j + "</a>."@.len()
                <= wiki.content@.len() ==> #[trigger] wiki.content@.subrange(
                j,
                j + "</a>."@.len(),
            ) != "</a>."@,
    ensures
        !readable,
{
    let tag = "<a href"@ + opening;
    no_quotes_before(opening);
    link_parts(wiki.content@, before, tag, behind);
}

/// Without the end of a link there is nothing to read wrong.
pub proof fn unfinished_links_are_readable(wiki: &LastfmWiki, readable: bool)
    requires
        call_ensures(LastfmWiki::has_readable_link, (wiki,), readable),
        forall|j: int|
            0 <= j && j + "</a>."@.len() <= wiki.content@.len() ==> #[trigger] wiki.content@.subrange(
                j,
                j + "</a>."@.len(),
            ) != "</a>."@,
    ensures
        readable,
{
    let text = wiki.content@;
    assert forall|i: int| !occurs_at(text, "</a>."@, i) by {
        if occurs_at(text, "</a>."@, i) {
            assert(text.subrange(i, i + "</a>."@.len()) != "</a>."@);
        }
    }
}

} // verus!
