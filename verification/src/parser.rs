//! Parse a changelog document into a [`ParsedChangelog`].
use vstd::prelude::*;
use vstd::string::StringSliceAdditionalSpecFns;
use vstd::utf8::*;

use crate::ast::{
    block_views, blocks_from, Block, BlockView, Heading, HeadingView, Inline, InlineView, LinkView,
    Literal, Parser,
};
use crate::changelog::parsed::{
    changes_views, release_views, text_option_view, text_views, ChangelogView,
    ChangesView, InvalidSpan, ParsedChangelog, ParsedChanges, ParsedRelease, ParsedUnreleased,
    ReleaseView, Text, UnreleasedView,
};
use crate::markdown::{markdown_broken_links, markdown_tokens, tokenize, Token};
use crate::span::{lemma_words_within, words_from, Span, SpanIterator, Spanned};
use crate::text::{lemma_boundary_in_prefix, slice, sliceable, str_eq};

verus! {

/// A section of a changelog, as its heading tells.
pub enum Section<'a> {
    Unreleased(ParsedUnreleased<'a>),
    Release(ParsedRelease<'a>),
    Invalid(InvalidSpan),
}

/// What a [`Section`] holds.
#[verifier::ext_equal]
pub enum SectionView {
    Unreleased(UnreleasedView),
    Release(ReleaseView),
    Invalid(InvalidSpan),
}

impl<'a> View for Section<'a> {
    type V = SectionView;

    open spec fn view(&self) -> SectionView {
        match self {
            Section::Unreleased(unreleased) => SectionView::Unreleased(unreleased@),
            Section::Release(release) => SectionView::Release(release@),
            Section::Invalid(invalid) => SectionView::Invalid(*invalid),
        }
    }
}

/// The text that `span` covers in a source encoded as `bytes`, with the span;
/// nothing where the span does not lie within the source or splits a character.
pub open spec fn spanned_text(bytes: Seq<u8>, span: Span) -> Option<Text> {
    if sliceable(bytes, span) {
        Some(Text { span, value: decode_utf8(span.of(bytes)) })
    } else {
        None
    }
}

/// A text cut from a source is what its span covers there.
pub proof fn lemma_spanned_text_is_from(bytes: Seq<u8>, span: Span)
    requires
        valid_utf8(bytes),
    ensures
        spanned_text(bytes, span) matches Some(text) ==> text.is_from(bytes),
{
    if sliceable(bytes, span) {
        lemma_boundary_in_prefix(bytes, span.start as int, span.end as int);
        let head = bytes.subrange(0, span.end as int);
        valid_utf8_split(head, span.start as int);
        assert(head.subrange(span.start as int, head.len() as int) =~= span.of(bytes));
        decode_utf8_encode_utf8(span.of(bytes));
    }
}

/// The span of the text of a heading that holds one run of text and nothing
/// else.
pub open spec fn heading_literal(heading: HeadingView) -> Option<Span> {
    if heading.inlines.len() == 1 {
        match heading.inlines[0] {
            InlineView::Literal(literal) => Some(literal.span),
            InlineView::Link(_) => None,
        }
    } else {
        None
    }
}

/// The text of a heading that holds one run of text and nothing else.
pub open spec fn heading_text(bytes: Seq<u8>, heading: HeadingView) -> Option<Text> {
    match heading_literal(heading) {
        Some(span) => spanned_text(bytes, span),
        None => None,
    }
}

/// The texts of the items of a list, in order. An item whose span cannot be
/// cut from the source has no text and is left out.
pub open spec fn item_texts(bytes: Seq<u8>, items: Seq<Literal>) -> Seq<Text>
    decreases items.len(),
{
    if items.len() == 0 {
        Seq::empty()
    } else {
        let before = item_texts(bytes, items.drop_last());
        match spanned_text(bytes, items.last().span) {
            Some(text) => before.push(text),
            None => before,
        }
    }
}

/// The group that a third-level heading opens: one whose type is the
/// heading's text. A heading that is more than one run of text opens none.
pub open spec fn opened_group(bytes: Seq<u8>, heading: HeadingView) -> Option<ChangesView> {
    match heading_text(bytes, heading) {
        Some(kind) => Some(ChangesView { heading_span: heading.span, kind, items: Seq::empty() }),
        None => None,
    }
}

/// The groups `done`, and behind them the group `open` if there is one.
pub open spec fn closed_groups(done: Seq<ChangesView>, open: Option<ChangesView>) -> Seq<
    ChangesView,
> {
    match open {
        Some(group) => done.push(group),
        None => done,
    }
}

/// The group `open` with the items of one more list.
pub open spec fn extended_group(
    bytes: Seq<u8>,
    open: Option<ChangesView>,
    items: Seq<Literal>,
) -> Option<ChangesView> {
    match open {
        Some(group) => Some(
            ChangesView {
                heading_span: group.heading_span,
                kind: group.kind,
                items: group.items + item_texts(bytes, items),
            },
        ),
        None => None,
    }
}

/// The groups of changes of a section: the run of third-level headings and
/// lists that begins at block `index`, read behind the groups `done` and the
/// group `open`, and the index of the block that ends the run. Each heading
/// closes the open group and opens the next; each list adds its items to the
/// open group, and is dropped where none is open.
pub open spec fn changes_run(
    bytes: Seq<u8>,
    blocks: Seq<BlockView>,
    index: int,
    done: Seq<ChangesView>,
    open: Option<ChangesView>,
) -> (Seq<ChangesView>, int)
    decreases blocks.len() - index,
{
    if index >= blocks.len() {
        (closed_groups(done, open), index)
    } else {
        match blocks[index] {
            BlockView::Heading(heading) => if heading.level == 3 {
                changes_run(
                    bytes,
                    blocks,
                    index + 1,
                    closed_groups(done, open),
                    opened_group(bytes, heading),
                )
            } else {
                (closed_groups(done, open), index)
            },
            BlockView::List(list) => changes_run(
                bytes,
                blocks,
                index + 1,
                done,
                extended_group(bytes, open, list.items),
            ),
            BlockView::Paragraph(_) => (closed_groups(done, open), index),
        }
    }
}

/// The link of a heading that holds one link and nothing else, where the
/// text of the link is "Unreleased".
pub open spec fn unreleased_link(bytes: Seq<u8>, heading: HeadingView) -> Option<LinkView> {
    if heading.inlines.len() == 1 {
        match heading.inlines[0] {
            InlineView::Link(link) => match spanned_text(bytes, link.content.span) {
                Some(text) => if text.value == "Unreleased"@ {
                    Some(link)
                } else {
                    None
                },
                None => None,
            },
            InlineView::Literal(_) => None,
        }
    } else {
        None
    }
}

/// The link, the version and the span of the text behind the link, of a
/// heading that holds a link and behind it one run of text.
pub open spec fn release_parts(bytes: Seq<u8>, heading: HeadingView) -> Option<
    (LinkView, Text, Span),
> {
    if heading.inlines.len() == 2 {
        match (heading.inlines[0], heading.inlines[1]) {
            (InlineView::Link(link), InlineView::Literal(rest)) => match spanned_text(
                bytes,
                link.content.span,
            ) {
                Some(version) => if sliceable(bytes, rest.span) {
                    Some((link, version, rest.span))
                } else {
                    None
                },
                None => None,
            },
            _ => None,
        }
    } else {
        None
    }
}

/// A span within a part of the source that begins at `offset`, as a span of
/// the source.
pub open spec fn shifted(span: Span, offset: usize) -> Span {
    Span { start: (offset + span.start) as usize, end: (offset + span.end) as usize }
}

/// Word `number` (counted from 0) of the part of the source that `rest`
/// covers, with its span in the source, if the part has that many words.
pub open spec fn word_text(bytes: Seq<u8>, rest: Span, number: int) -> Option<Text> {
    let words = words_from(rest.of(bytes), 0);
    if 0 <= number < words.len() {
        spanned_text(bytes, shifted(words[number], rest.start))
    } else {
        None
    }
}

/// Where a character starts in a part of the source, a character starts in
/// the source.
pub proof fn lemma_boundary_in_part(bytes: Seq<u8>, part: Span, index: int)
    requires
        valid_utf8(bytes),
        sliceable(bytes, part),
        0 <= index <= part.end - part.start,
        is_char_boundary(part.of(bytes), index) || index == part.end - part.start,
    ensures
        valid_utf8(part.of(bytes)),
        is_char_boundary(bytes, part.start + index),
{
    lemma_boundary_in_prefix(bytes, part.start as int, part.end as int);
    let head = bytes.subrange(0, part.end as int);
    valid_utf8_split(head, part.start as int);
    assert(head.subrange(part.start as int, head.len() as int) =~= part.of(bytes));
    if index < part.end - part.start {
        is_char_boundary_iff_not_is_continuation_byte(part.of(bytes), index);
        is_char_boundary_iff_not_is_continuation_byte(bytes, part.start + index);
    }
}

/// Each word of a part of the source has a text: where the text behind the
/// link of a release heading has a second word, the release has a date, and
/// where it has a third, a yanked marker.
pub proof fn lemma_words_have_text(bytes: Seq<u8>, rest: Span, number: int)
    requires
        valid_utf8(bytes),
        bytes.len() <= usize::MAX,
        sliceable(bytes, rest),
    ensures
        word_text(bytes, rest, number) is Some <==> 0 <= number < words_from(
            rest.of(bytes),
            0,
        ).len(),
        word_text(bytes, rest, number) matches Some(text) ==> text.is_from(bytes),
{
    let part = rest.of(bytes);
    let words = words_from(part, 0);
    if 0 <= number < words.len() {
        lemma_words_within(part, 0, number);
        lemma_boundary_in_part(bytes, rest, words[number].start as int);
        lemma_boundary_in_part(bytes, rest, words[number].end as int);
        lemma_spanned_text_is_from(bytes, shifted(words[number], rest.start));
    }
}

/// The section that a second-level heading starts, with the groups of changes
/// that begin at block `index`, and the index of the block behind the section.
///
/// A heading that is one link named "Unreleased" starts the unreleased
/// section. A heading that is a link and a run of text starts a release: the
/// link names the version, and of the words of the text the first (a hyphen)
/// is passed over, the second is the date and the third the yanked marker.
/// Any other heading is invalid and has no changes.
pub open spec fn section_of(
    bytes: Seq<u8>,
    heading: HeadingView,
    blocks: Seq<BlockView>,
    index: int,
) -> (SectionView, int) {
    let run = changes_run(bytes, blocks, index, Seq::empty(), None);
    match unreleased_link(bytes, heading) {
        Some(link) => (
            SectionView::Unreleased(
                UnreleasedView {
                    heading_span: heading.span,
                    url: Some(link.target),
                    changes: run.0,
                },
            ),
            run.1,
        ),
        None => match release_parts(bytes, heading) {
            Some((link, version, rest)) => (
                SectionView::Release(
                    ReleaseView {
                        heading_span: heading.span,
                        version,
                        url: Some(link.target),
                        date: word_text(bytes, rest, 1),
                        yanked: word_text(bytes, rest, 2),
                        changes: run.0,
                    },
                ),
                run.1,
            ),
            None => (SectionView::Invalid(InvalidSpan::InvalidSectionHeading(heading.span)), index),
        },
    }
}

/// The changelog `changelog` with one more invalid span.
pub open spec fn with_invalid(changelog: ChangelogView, invalid: InvalidSpan) -> ChangelogView {
    ChangelogView {
        source: changelog.source,
        title: changelog.title,
        unreleased: changelog.unreleased,
        releases: changelog.releases,
        invalid_spans: changelog.invalid_spans.push(invalid),
    }
}

/// The changelog `changelog` behind a first-level heading. A heading that is
/// one run of text is the title if it is the first such heading, and a
/// duplicate title if it is not; any other heading is an invalid title.
pub open spec fn with_title(
    bytes: Seq<u8>,
    changelog: ChangelogView,
    heading: HeadingView,
) -> ChangelogView {
    match heading_literal(heading) {
        Some(span) => if changelog.title is Some {
            with_invalid(changelog, InvalidSpan::DuplicateTitle(span))
        } else {
            match spanned_text(bytes, span) {
                Some(title) => ChangelogView {
                    source: changelog.source,
                    title: Some(title),
                    unreleased: changelog.unreleased,
                    releases: changelog.releases,
                    invalid_spans: changelog.invalid_spans,
                },
                None => with_invalid(changelog, InvalidSpan::InvalidTitle(heading.span)),
            }
        },
        None => with_invalid(changelog, InvalidSpan::InvalidTitle(heading.span)),
    }
}

/// The changelog `changelog` behind one more section. The first unreleased
/// section is kept and every later one is a duplicate; releases are kept in
/// the order of the document.
pub open spec fn with_section(changelog: ChangelogView, section: SectionView) -> ChangelogView {
    match section {
        SectionView::Unreleased(unreleased) => if changelog.unreleased is Some {
            with_invalid(changelog, InvalidSpan::DuplicateUnreleased(unreleased.heading_span))
        } else {
            ChangelogView {
                source: changelog.source,
                title: changelog.title,
                unreleased: Some(unreleased),
                releases: changelog.releases,
                invalid_spans: changelog.invalid_spans,
            }
        },
        SectionView::Release(release) => ChangelogView {
            source: changelog.source,
            title: changelog.title,
            unreleased: changelog.unreleased,
            releases: changelog.releases.push(release),
            invalid_spans: changelog.invalid_spans,
        },
        SectionView::Invalid(invalid) => with_invalid(changelog, invalid),
    }
}

/// The changelog `changelog` behind the blocks from `index` on.
pub open spec fn assembled(
    bytes: Seq<u8>,
    blocks: Seq<BlockView>,
    index: int,
    changelog: ChangelogView,
) -> ChangelogView
    decreases blocks.len() - index,
{
    if index >= blocks.len() {
        changelog
    } else {
        match blocks[index] {
            BlockView::Heading(heading) => if heading.level == 1 {
                assembled(bytes, blocks, index + 1, with_title(bytes, changelog, heading))
            } else if heading.level == 2 {
                let (section, next) = section_of(bytes, heading, blocks, index + 1);
                if index < next <= blocks.len() {
                    assembled(bytes, blocks, next, with_section(changelog, section))
                } else {
                    changelog
                }
            } else {
                assembled(bytes, blocks, index + 1, changelog)
            },
            _ => assembled(bytes, blocks, index + 1, changelog),
        }
    }
}

/// A changelog of the document `source` in which nothing was found yet.
pub open spec fn empty_changelog(source: Seq<char>) -> ChangelogView {
    ChangelogView {
        source,
        title: None,
        unreleased: None,
        releases: Seq::empty(),
        invalid_spans: Seq::empty(),
    }
}

/// The changelog that the events `tokens` and the broken link references
/// `broken_links` of the document `source` make up.
pub open spec fn parsed(
    source: Seq<char>,
    tokens: Seq<Token>,
    broken_links: Seq<Span>,
) -> ChangelogView {
    let bytes = encode_utf8(source);
    let changelog = assembled(bytes, blocks_from(bytes, tokens, 0), 0, empty_changelog(source));
    ChangelogView {
        source: changelog.source,
        title: changelog.title,
        unreleased: changelog.unreleased,
        releases: changelog.releases,
        invalid_spans: changelog.invalid_spans + broken_links.map_values(
            |span: Span| InvalidSpan::UndefinedLinkReference(span),
        ),
    }
}


/// The text that `span` covers in `source`, with the span.
pub fn text_at<'a>(source: &'a str, span: Span) -> (text: Option<Spanned<&'a str>>)
    ensures
        text_option_view(text) == spanned_text(source.spec_bytes(), span),
        text matches Some(found) ==> found@.is_from(source.spec_bytes()),
{
    proof {
        encode_utf8_valid_utf8(source@);
        lemma_spanned_text_is_from(source.spec_bytes(), span);
    }
    match slice(source, span) {
        Some(value) => {
            proof {
                encode_utf8_decode_utf8(value@);
            }
            Some(Spanned { span, value })
        },
        None => None,
    }
}

/// The span of the text of a heading that holds one run of text and nothing
/// else.
pub fn get_heading_span(heading: &Heading) -> (span: Option<Span>)
    ensures
        span == heading_literal(heading@),
{
    if heading.inlines.len() == 1 {
        match &heading.inlines[0] {
            Inline::Literal(literal) => Some(literal.span),
            Inline::Link(_) => None,
        }
    } else {
        None
    }
}

/// The text of a heading that holds one run of text and nothing else.
pub fn get_heading_text<'a>(source: &'a str, heading: &Heading) -> (text: Option<Spanned<&'a str>>)
    ensures
        text_option_view(text) == heading_text(source.spec_bytes(), heading@),
        text matches Some(found) ==> found@.is_from(source.spec_bytes()),
{
    match get_heading_span(heading) {
        Some(span) => text_at(source, span),
        None => None,
    }
}

/// The view of the group that is open while a run of changes is read.
pub open spec fn open_group_view(
    heading_span: Span,
    kind: Option<Spanned<&str>>,
    items: Seq<Spanned<&str>>,
) -> Option<ChangesView> {
    match kind {
        Some(kind) => Some(ChangesView { heading_span, kind: kind@, items: text_views(items) }),
        None => None,
    }
}

/// Adds the texts of the items of a list to `texts`.
fn push_item_texts<'a>(source: &'a str, items: &Vec<Literal>, texts: &mut Vec<Spanned<&'a str>>)
    ensures
        text_views(final(texts)@) == text_views(old(texts)@) + item_texts(
            source.spec_bytes(),
            items@,
        ),
        forall|i: int|
            old(texts)@.len() <= i < final(texts)@.len() ==> (#[trigger] final(texts)@[i])@.is_from(
                source.spec_bytes(),
            ),
        forall|i: int| 0 <= i < old(texts)@.len() ==> final(texts)@[i] == old(texts)@[i],
        old(texts)@.len() <= final(texts)@.len(),
{
    let ghost bytes = source.spec_bytes();
    let ghost before = texts@;
    let mut index: usize = 0;
    assert(items@.take(0) =~= Seq::empty());
    assert(text_views(before) + item_texts(bytes, items@.take(0)) =~= text_views(before));
    while index < items.len()
        invariant
            bytes == source.spec_bytes(),
            index <= items@.len(),
            text_views(texts@) == text_views(before) + item_texts(bytes, items@.take(index as int)),
            before.len() <= texts@.len(),
            forall|i: int| 0 <= i < before.len() ==> texts@[i] == before[i],
            forall|i: int|
                before.len() <= i < texts@.len() ==> (#[trigger] texts@[i])@.is_from(bytes),
        decreases items@.len() - index,
    {
        let ghost views = text_views(texts@);
        assert(items@.take(index + 1).drop_last() =~= items@.take(index as int));
        match text_at(source, items[index].span) {
            Some(text) => {
                texts.push(text);
                assert(text_views(texts@) =~= views.push(text@));
                assert(views.push(text@) =~= text_views(before) + item_texts(
                    bytes,
                    items@.take(index as int),
                ).push(text@));
            },
            None => {},
        }
        index += 1;
    }
    assert(items@.take(items@.len() as int) =~= items@);
}

/// Whether a block belongs to a run of changes: a third-level heading or a
/// list does.
pub open spec fn in_changes_run(block: BlockView) -> bool {
    match block {
        BlockView::Heading(heading) => heading.level == 3,
        BlockView::List(_) => true,
        BlockView::Paragraph(_) => false,
    }
}

/// Whether a block belongs to a run of changes.
fn continues_run(block: &Block) -> (yes: bool)
    ensures
        yes == in_changes_run(block@),
{
    match block {
        Block::Heading(heading) => heading.level == 3,
        Block::List(_) => true,
        Block::Paragraph(_) => false,
    }
}

/// Reads the groups of changes of a section: the run of third-level headings
/// and lists that begins at block `from`. Gives the groups and the index of
/// the block that ends the run.
pub fn parse_changes<'a>(source: &'a str, blocks: &Vec<Block>, from: usize) -> (found: (
    Vec<ParsedChanges<'a>>,
    usize,
))
    requires
        from <= blocks.len(),
    ensures
        (changes_views(found.0@), found.1 as int) == changes_run(
            source.spec_bytes(),
            block_views(blocks@),
            from as int,
            Seq::empty(),
            None,
        ),
        from <= found.1 <= blocks.len(),
        forall|i: int|
            0 <= i < found.0@.len() ==> (#[trigger] found.0@[i])@.is_from(source.spec_bytes()),
{
    let ghost bytes = source.spec_bytes();
    let ghost views = block_views(blocks@);
    let mut sections: Vec<ParsedChanges<'a>> = Vec::new();
    let mut current_kind: Option<Spanned<&'a str>> = None;
    let mut current_changes: Vec<Spanned<&'a str>> = Vec::new();
    let mut current_heading_span = Span { start: 0, end: 0 };
    let mut index = from;
    assert(changes_views(sections@) =~= Seq::empty());
    while index < blocks.len() && continues_run(&blocks[index])
        invariant
            bytes == source.spec_bytes(),
            views == block_views(blocks@),
            from <= index <= blocks.len(),
            changes_run(bytes, views, from as int, Seq::empty(), None) == changes_run(
                bytes,
                views,
                index as int,
                changes_views(sections@),
                open_group_view(current_heading_span, current_kind, current_changes@),
            ),
            forall|i: int| 0 <= i < sections@.len() ==> (#[trigger] sections@[i])@.is_from(bytes),
            current_kind matches Some(kind) ==> kind@.is_from(bytes),
            forall|i: int|
                0 <= i < current_changes@.len() ==> (#[trigger] current_changes@[i])@.is_from(
                    bytes,
                ),
        decreases blocks.len() - index,
    {
        let ghost done = changes_views(sections@);
        assert(views[index as int] == blocks@[index as int]@);
        match &blocks[index] {
            Block::Heading(heading) => {
                match current_kind {
                    Some(kind) => {
                        let group = ParsedChanges {
                            heading_span: current_heading_span,
                            kind,
                            items: current_changes,
                        };
                        sections.push(group);
                        assert(changes_views(sections@) =~= done.push(group@));
                        current_changes = Vec::new();
                    },
                    None => {},
                }
                current_kind = get_heading_text(source, heading);
                current_heading_span = heading.span;
                current_changes = Vec::new();
                assert(text_views(current_changes@) =~= Seq::empty());
            },
            Block::List(list) => {
                if current_kind.is_some() {
                    push_item_texts(source, &list.items, &mut current_changes);
                }
            },
            Block::Paragraph(_) => {},
        }
        index += 1;
    }
    let ghost done = changes_views(sections@);
    proof {
        if index < blocks.len() {
            assert(views[index as int] == blocks@[index as int]@);
        }
    }
    match current_kind {
        Some(kind) => {
            let group = ParsedChanges {
                heading_span: current_heading_span,
                kind,
                items: current_changes,
            };
            sections.push(group);
            assert(changes_views(sections@) =~= done.push(group@));
        },
        None => {},
    }
    (sections, index)
}

/// The text of the word with the span `word` within the part of `source`
/// that begins at `offset`.
fn word_at<'a>(source: &'a str, word: Option<Span>, offset: usize) -> (text: Option<
    Spanned<&'a str>,
>)
    requires
        word matches Some(span) ==> offset + span.end <= usize::MAX && span.start <= span.end,
    ensures
        text_option_view(text) == match word {
            Some(span) => spanned_text(source.spec_bytes(), shifted(span, offset)),
            None => None,
        },
        text matches Some(found) ==> found@.is_from(source.spec_bytes()),
{
    match word {
        Some(span) => text_at(source, span.offset(offset)),
        None => None,
    }
}

/// Reads the section that the second-level heading `heading` starts, with
/// the groups of changes that begin at block `from`. Gives the section and
/// the index of the block behind it.
pub fn parse_section<'a>(
    source: &'a str,
    heading: &Heading,
    blocks: &Vec<Block>,
    from: usize,
) -> (found: (Section<'a>, usize))
    requires
        from <= blocks.len(),
    ensures
        (found.0@, found.1 as int) == section_of(
            source.spec_bytes(),
            heading@,
            block_views(blocks@),
            from as int,
        ),
        from <= found.1 <= blocks.len(),
        found.0 matches Section::Unreleased(unreleased) ==> unreleased@.is_from(
            source.spec_bytes(),
        ),
        found.0 matches Section::Release(release) ==> release@.is_from(source.spec_bytes()),
{
    let ghost bytes = source.spec_bytes();
    proof {
        reveal_strlit("Unreleased");
    }
    if heading.inlines.len() == 1 {
        match &heading.inlines[0] {
            Inline::Link(link) => {
                match text_at(source, link.content.span) {
                    Some(text) => {
                        if str_eq(text.value, "Unreleased") {
                            let (changes, next) = parse_changes(source, blocks, from);
                            let unreleased = ParsedUnreleased {
                                heading_span: heading.span,
                                url: Some(link.target.clone()),
                                changes,
                            };
                            return (Section::Unreleased(unreleased), next);
                        }
                    },
                    None => {},
                }
            },
            Inline::Literal(_) => {},
        }
    } else if heading.inlines.len() == 2 {
        match &heading.inlines[0] {
            Inline::Link(link) => {
                match &heading.inlines[1] {
                    Inline::Literal(rest) => {
                        match text_at(source, link.content.span) {
                            Some(version) => {
                                match slice(source, rest.span) {
                                    Some(part) => {
                                        let ghost all = words_from(part.spec_bytes(), 0);
                                        let mut words = SpanIterator::new(part);
                                        let _ = words.next();
                                        let second = words.next();
                                        let third = words.next();
                                        proof {
                                            if all.len() > 1 {
                                                lemma_words_within(part.spec_bytes(), 0, 1);
                                                assert(all.drop_first()[0] == all[1]);
                                            }
                                            if all.len() > 2 {
                                                lemma_words_within(part.spec_bytes(), 0, 2);
                                                assert(all.drop_first().drop_first()[0] == all[2]);
                                            }
                                        }
                                        let date = word_at(source, second, rest.span.start);
                                        let yanked = word_at(source, third, rest.span.start);
                                        let (changes, next) = parse_changes(source, blocks, from);
                                        let release = ParsedRelease {
                                            heading_span: heading.span,
                                            version,
                                            url: Some(link.target.clone()),
                                            date,
                                            yanked,
                                            changes,
                                        };
                                        return (Section::Release(release), next);
                                    },
                                    None => {},
                                }
                            },
                            None => {},
                        }
                    },
                    Inline::Link(_) => {},
                }
            },
            Inline::Literal(_) => {},
        }
    }
    (Section::Invalid(InvalidSpan::InvalidSectionHeading(heading.span)), from)
}


/// The view of a changelog that is being put together.
pub open spec fn changelog_view(
    source: &str,
    title: Option<Spanned<&str>>,
    unreleased: Option<ParsedUnreleased>,
    releases: Seq<ParsedRelease>,
    invalid_spans: Seq<InvalidSpan>,
) -> ChangelogView {
    ChangelogView {
        source: source@,
        title: text_option_view(title),
        unreleased: match unreleased {
            Some(unreleased) => Some(unreleased@),
            None => None,
        },
        releases: release_views(releases),
        invalid_spans,
    }
}

/// Puts the changelog together from the events and the broken link
/// references that the tokenizer reported for `source`.
///
/// Every text of the result is cut from `source` at its span.
pub fn parse_tokens<'a>(source: &'a str, tokens: Vec<Token>, broken_links: Vec<Span>) -> (changelog:
    ParsedChangelog<'a>)
    ensures
        changelog@ == parsed(source@, tokens@, broken_links@),
        changelog.source == source,
        changelog@.is_faithful(),
{
    let ghost bytes = source.spec_bytes();
    let blocks = Parser::new(source, tokens).collect();
    let ghost views = block_views(blocks@);
    let mut title: Option<Spanned<&'a str>> = None;
    let mut unreleased: Option<ParsedUnreleased<'a>> = None;
    let mut releases: Vec<ParsedRelease<'a>> = Vec::new();
    let mut invalid_spans: Vec<InvalidSpan> = Vec::new();
    let mut index: usize = 0;
    assert(changelog_view(source, title, unreleased, releases@, invalid_spans@) =~= empty_changelog(
        source@,
    ));
    while index < blocks.len()
        invariant
            bytes == source.spec_bytes(),
            views == block_views(blocks@),
            index <= blocks.len(),
            assembled(bytes, views, 0, empty_changelog(source@)) == assembled(
                bytes,
                views,
                index as int,
                changelog_view(source, title, unreleased, releases@, invalid_spans@),
            ),
            title matches Some(text) ==> text@.is_from(bytes),
            unreleased matches Some(section) ==> section@.is_from(bytes),
            forall|i: int| 0 <= i < releases@.len() ==> (#[trigger] releases@[i])@.is_from(bytes),
        decreases blocks.len() - index,
    {
        let ghost before = changelog_view(source, title, unreleased, releases@, invalid_spans@);
        assert(views[index as int] == blocks@[index as int]@);
        match &blocks[index] {
            Block::Heading(heading) => {
                if heading.level == 1 {
                    match get_heading_span(heading) {
                        Some(span) => {
                            if title.is_some() {
                                invalid_spans.push(InvalidSpan::DuplicateTitle(span));
                            } else {
                                match text_at(source, span) {
                                    Some(text) => {
                                        title = Some(text);
                                    },
                                    None => {
                                        invalid_spans.push(InvalidSpan::InvalidTitle(heading.span));
                                    },
                                }
                            }
                        },
                        None => {
                            invalid_spans.push(InvalidSpan::InvalidTitle(heading.span));
                        },
                    }
                    assert(changelog_view(source, title, unreleased, releases@, invalid_spans@)
                        =~= with_title(bytes, before, heading@));
                    index += 1;
                } else if heading.level == 2 {
                    let (section, next) = parse_section(source, heading, &blocks, index + 1);
                    let ghost section_view = section@;
                    match section {
                        Section::Unreleased(found) => {
                            if unreleased.is_some() {
                                invalid_spans.push(
                                    InvalidSpan::DuplicateUnreleased(found.heading_span),
                                );
                            } else {
                                unreleased = Some(found);
                            }
                        },
                        Section::Release(release) => {
                            let ghost views_before = release_views(releases@);
                            releases.push(release);
                            assert(release_views(releases@) =~= views_before.push(release@));
                        },
                        Section::Invalid(invalid) => {
                            invalid_spans.push(invalid);
                        },
                    }
                    assert(changelog_view(source, title, unreleased, releases@, invalid_spans@)
                        =~= with_section(before, section_view));
                    index = next;
                } else {
                    index += 1;
                }
            },
            _ => {
                index += 1;
            },
        }
    }
    let ghost found = invalid_spans@;
    let mut link: usize = 0;
    while link < broken_links.len()
        invariant
            link <= broken_links@.len(),
            invalid_spans@ == found + broken_links@.take(link as int).map_values(
                |span: Span| InvalidSpan::UndefinedLinkReference(span),
            ),
        decreases broken_links@.len() - link,
    {
        invalid_spans.push(InvalidSpan::UndefinedLinkReference(broken_links[link]));
        assert(invalid_spans@ =~= found + broken_links@.take(link + 1).map_values(
            |span: Span| InvalidSpan::UndefinedLinkReference(span),
        ));
        link += 1;
    }
    assert(broken_links@.take(broken_links@.len() as int) =~= broken_links@);
    let changelog = ParsedChangelog { source, title, unreleased, releases, invalid_spans };
    assert(changelog@.releases =~= release_views(releases@));
    changelog
}

/// Parses a changelog.
///
/// Parsing never fails: every string is a Markdown document, and what does
/// not fit the format of a changelog is noted as an invalid span. Every text
/// of the result is cut from `source` at its span.
pub fn parse<'a>(source: &'a str) -> (changelog: ParsedChangelog<'a>)
    ensures
        changelog@ == parsed(source@, markdown_tokens(source@), markdown_broken_links(source@)),
        changelog.source == source,
        changelog@.is_faithful(),
{
    let tokens = tokenize(source);
    parse_tokens(source, tokens.tokens, tokens.broken_links)
}

} // verus!
