//! The Italian word of the day: the feed's first item gives the word, and the
//! table in the item's description gives its part of speech and an example
//! sentence with its English meaning.
use vstd::prelude::*;

verus! {

/// The word of the day as the board shows it.
pub struct ItalianWord {
    pub word: String,
    pub part_of_speech: String,
    pub italian_sentence: String,
    pub english_sentence: String,
}

/// The text of each field of an [`ItalianWord`].
pub struct ItalianWordView {
    pub word: Seq<char>,
    pub part_of_speech: Seq<char>,
    pub italian_sentence: Seq<char>,
    pub english_sentence: Seq<char>,
}

impl View for ItalianWord {
    type V = ItalianWordView;

    open spec fn view(&self) -> ItalianWordView {
        ItalianWordView {
            word: self.word@,
            part_of_speech: self.part_of_speech@,
            italian_sentence: self.italian_sentence@,
            english_sentence: self.english_sentence@,
        }
    }
}

/// A word with all four fields empty.
pub open spec fn empty_word() -> ItalianWordView {
    ItalianWordView {
        word: Seq::empty(),
        part_of_speech: Seq::empty(),
        italian_sentence: Seq::empty(),
        english_sentence: Seq::empty(),
    }
}

impl Default for ItalianWord {
    fn default() -> (res: Self)
        ensures
            res@ == empty_word(),
    {
        ItalianWord {
            word: String::new(),
            part_of_speech: String::new(),
            italian_sentence: String::new(),
            english_sentence: String::new(),
        }
    }
}

/// Header (lower-cased) of the table row that gives the part of speech.
pub const PART_OF_SPEECH_HEADER: &'static str = "part of speech:";

/// Header (lower-cased) of the table row that gives the Italian example.
pub const EXAMPLE_SENTENCE_HEADER: &'static str = "example sentence:";

/// Header (lower-cased) of the table row that gives the example's meaning.
pub const SENTENCE_MEANING_HEADER: &'static str = "sentence meaning:";

/// The word after one table cell is read: the lower-cased header decides
/// which field the cell's text replaces; under any other header nothing
/// changes.
pub open spec fn cell_applied(
    w: ItalianWordView,
    lowered_header: Seq<char>,
    value: Seq<char>,
) -> ItalianWordView {
    if lowered_header == PART_OF_SPEECH_HEADER@ {
        ItalianWordView { part_of_speech: value, ..w }
    } else if lowered_header == EXAMPLE_SENTENCE_HEADER@ {
        ItalianWordView { italian_sentence: value, ..w }
    } else if lowered_header == SENTENCE_MEANING_HEADER@ {
        ItalianWordView { english_sentence: value, ..w }
    } else {
        w
    }
}

/// Whether two strings hold the same characters.
fn same_text(a: &str, b: &str) -> (res: bool)
    ensures
        res == (a@ == b@),
{
    let n = a.unicode_len();
    let m = b.unicode_len();
    if n != m {
        return false;
    }
    let mut i: usize = 0;
    while i < n
        invariant
            n == a@.len(),
            m == b@.len(),
            n == m,
            i <= n,
            forall|j: int| 0 <= j < i ==> a@[j] == b@[j],
        decreases n - i,
    {
        if a.get_char(i) != b.get_char(i) {
            return false;
        }
        i = i + 1;
    }
    assert(a@ =~= b@);
    true
}

/// Whether a lower-cased header is one of the three the word is read from.
pub open spec fn is_known_header(lowered: Seq<char>) -> bool {
    lowered == PART_OF_SPEECH_HEADER@ || lowered == EXAMPLE_SENTENCE_HEADER@
        || lowered == SENTENCE_MEANING_HEADER@
}

/// Reads one table cell into the word: `lowered_header` is the cell's header
/// already lower-cased, `value` the cell's text. Returns whether the header
/// is one of the three known ones (a cell under any other header is not
/// read, and its header is worth a warning).
pub fn apply_cell(word: &mut ItalianWord, lowered_header: &str, value: &str) -> (known: bool)
    ensures
        final(word)@ == cell_applied(old(word)@, lowered_header@, value@),
        known == is_known_header(lowered_header@),
{
    if same_text(lowered_header, PART_OF_SPEECH_HEADER) {
        word.part_of_speech = String::from_str(value);
        true
    } else if same_text(lowered_header, EXAMPLE_SENTENCE_HEADER) {
        word.italian_sentence = String::from_str(value);
        true
    } else if same_text(lowered_header, SENTENCE_MEANING_HEADER) {
        word.english_sentence = String::from_str(value);
        true
    } else {
        false
    }
}

/// The cells of one table row of the description: the text of its header
/// cells and the text of its data cells, each in the order scraper's
/// `select` yields them.
pub struct TableRow {
    pub headers: Vec<String>,
    pub cells: Vec<String>,
}

impl View for TableRow {
    type V = (Seq<Seq<char>>, Seq<Seq<char>>);

    open spec fn view(&self) -> (Seq<Seq<char>>, Seq<Seq<char>>) {
        (self.headers.deep_view(), self.cells.deep_view())
    }
}

/// What `str::to_lowercase` makes of a text (Unicode lower-casing).
pub uninterp spec fn str_lowercase(s: Seq<char>) -> Seq<char>;

/// Whether every character of a text is ASCII.
pub open spec fn all_ascii(s: Seq<char>) -> bool {
    forall|i: int| 0 <= i < s.len() ==> (#[trigger] s[i] as u32) < 128
}

/// The ASCII lower-case of a character: A–Z become a–z, any other character
/// stays.
pub open spec fn ascii_lower_char(c: char) -> char {
    if 'A' <= c && c <= 'Z' {
        ((c as u32) + 32) as char
    } else {
        c
    }
}

/// The ASCII lower-case of a text, character by character.
pub open spec fn ascii_lowercase(s: Seq<char>) -> Seq<char> {
    s.map_values(|c: char| ascii_lower_char(c))
}

/// The key a table header is recognised by: its lower-case. For an ASCII
/// header that is its ASCII lower-case.
pub open spec fn header_key(header: Seq<char>) -> Seq<char> {
    if all_ascii(header) {
        ascii_lowercase(header)
    } else {
        str_lowercase(header)
    }
}

/// Lower-cases a text with std's `str::to_lowercase`. Its result is taken to
/// be a function of the text alone, named `str_lowercase`; of an all-ASCII
/// text it is stated that A–Z become a–z and every other character is kept
/// (std maps ASCII characters to their ASCII lower-case); nothing more is
/// stated.
#[verifier::external_body]
fn lowercase(s: &str) -> (res: String)
    ensures
        res@ == str_lowercase(s@),
        all_ascii(s@) ==> res@ == ascii_lowercase(s@),
{
    s.to_lowercase()
}

/// The header/cell pairs of one row: the i-th header goes with the i-th data
/// cell, and the pairs stop where the shorter of the two lists ends.
pub open spec fn row_pairs(row: (Seq<Seq<char>>, Seq<Seq<char>>)) -> Seq<(Seq<char>, Seq<char>)> {
    let n = if row.0.len() <= row.1.len() { row.0.len() } else { row.1.len() };
    Seq::new(n, |i: int| (row.0[i], row.1[i]))
}

/// The word after the given pairs are read in order, each header by its key.
pub open spec fn cells_applied(w: ItalianWordView, pairs: Seq<(Seq<char>, Seq<char>)>) -> ItalianWordView
    decreases pairs.len(),
{
    if pairs.len() == 0 {
        w
    } else {
        let last = pairs.last();
        cell_applied(cells_applied(w, pairs.drop_last()), header_key(last.0), last.1)
    }
}

/// The keys of the headers, in order, whose cells are not read because the
/// header is none of the three known ones.
pub open spec fn cells_unknown(pairs: Seq<(Seq<char>, Seq<char>)>) -> Seq<Seq<char>>
    decreases pairs.len(),
{
    if pairs.len() == 0 {
        Seq::empty()
    } else {
        let key = header_key(pairs.last().0);
        if is_known_header(key) {
            cells_unknown(pairs.drop_last())
        } else {
            cells_unknown(pairs.drop_last()).push(key)
        }
    }
}

/// The word after the given rows are read in order.
pub open spec fn table_applied(w: ItalianWordView, rows: Seq<(Seq<Seq<char>>, Seq<Seq<char>>)>) -> ItalianWordView
    decreases rows.len(),
{
    if rows.len() == 0 {
        w
    } else {
        cells_applied(table_applied(w, rows.drop_last()), row_pairs(rows.last()))
    }
}

/// The unknown header keys of the given rows, row after row.
pub open spec fn table_unknown(rows: Seq<(Seq<Seq<char>>, Seq<Seq<char>>)>) -> Seq<Seq<char>>
    decreases rows.len(),
{
    if rows.len() == 0 {
        Seq::empty()
    } else {
        table_unknown(rows.drop_last()) + cells_unknown(row_pairs(rows.last()))
    }
}

/// The views of a list of rows.
pub open spec fn rows_view(rows: Seq<TableRow>) -> Seq<(Seq<Seq<char>>, Seq<Seq<char>>)> {
    rows.map_values(|r: TableRow| r@)
}

/// Reads the description's table into the word: row by row, each header
/// cell with the data cell at the same place, the header lower-cased.
/// Returns, in order, the lower-cased headers whose cells were not read
/// (one warning each).
pub fn fill_from_table(word: &mut ItalianWord, rows: &Vec<TableRow>) -> (unknown: Vec<String>)
    ensures
        final(word)@ == table_applied(old(word)@, rows_view(rows@)),
        unknown.deep_view() == table_unknown(rows_view(rows@)),
{
    let ghost start = word@;
    let ghost rv = rows_view(rows@);
    let mut unknown: Vec<String> = Vec::new();
    let mut r: usize = 0;
    while r < rows.len()
        invariant
            r <= rows.len(),
            rv == rows_view(rows@),
            word@ == table_applied(start, rv.take(r as int)),
            unknown.deep_view() == table_unknown(rv.take(r as int)),
        decreases rows.len() - r,
    {
        let row = &rows[r];
        let n = if row.headers.len() <= row.cells.len() { row.headers.len() } else { row.cells.len() };
        let ghost before = word@;
        let ghost unknown_before = unknown.deep_view();
        let ghost pairs = row_pairs(row@);
        assert(pairs.len() == n);
        let mut k: usize = 0;
        while k < n
            invariant
                k <= n,
                n <= row.headers.len(),
                n <= row.cells.len(),
                pairs == row_pairs(row@),
                pairs.len() == n,
                word@ == cells_applied(before, pairs.take(k as int)),
                unknown.deep_view() == unknown_before + cells_unknown(pairs.take(k as int)),
            decreases n - k,
        {
            let lowered = lowercase(row.headers[k].as_str());
            assert(lowered@ == header_key(pairs[k as int].0));
            let known = apply_cell(word, lowered.as_str(), row.cells[k].as_str());
            assert(pairs.take(k + 1).drop_last() =~= pairs.take(k as int));
            assert(pairs.take(k + 1).last() == pairs[k as int]);
            let ghost unknown_mid = unknown.deep_view();
            if !known {
                unknown.push(lowered);
                assert(unknown.deep_view() =~= unknown_mid.push(header_key(pairs[k as int].0)));
            }
            k = k + 1;
        }
        assert(pairs.take(n as int) =~= pairs);
        assert(rv.take(r + 1).drop_last() =~= rv.take(r as int));
        assert(rv.take(r + 1).last() == row@);
        r = r + 1;
    }
    assert(rv.take(rows.len() as int) =~= rv);
    unknown
}

/// What scraper makes of an HTML fragment when the elements matching `row`
/// are selected, in the order `select` yields them, and, inside each, the
/// inner HTML of the elements matching `header` and of those matching `cell`
/// is taken.
pub uninterp spec fn html_table_cells(
    html: Seq<char>,
    row: Seq<char>,
    header: Seq<char>,
    cell: Seq<char>,
) -> Seq<(Seq<Seq<char>>, Seq<Seq<char>>)>;

/// Whether a selector text is a plain type selector: one or more of the
/// letters a–z (an element name), which scraper's `Selector::parse` always
/// accepts.
pub open spec fn is_type_selector(css: Seq<char>) -> bool {
    css.len() > 0 && forall|i: int| 0 <= i < css.len() ==> 'a' <= #[trigger] css[i] && css[i] <= 'z'
}

/// Parses `html` as a fragment with scraper's `Html::parse_fragment`, selects
/// the `row` elements and takes, per row, the inner HTML of the `header` and
/// of the `cell` elements below it. The outcome is taken to be a function of
/// the four texts (`html_table_cells`); nothing more of it is stated. The
/// three selectors must be plain element names, which `Selector::parse`
/// accepts, so its results can be unwrapped.
#[verifier::external_body]
fn select_table_cells(html: &str, row: &str, header: &str, cell: &str) -> (rows: Vec<TableRow>)
    requires
        is_type_selector(row@),
        is_type_selector(header@),
        is_type_selector(cell@),
    ensures
        rows_view(rows@) == html_table_cells(html@, row@, header@, cell@),
{
    let row_sel = scraper::Selector::parse(row).unwrap();
    let header_sel = scraper::Selector::parse(header).unwrap();
    let cell_sel = scraper::Selector::parse(cell).unwrap();
    let fragment = scraper::Html::parse_fragment(html);
    fragment.select(&row_sel).map(|e| TableRow {
        headers: e.select(&header_sel).map(|h| h.inner_html()).collect(),
        cells: e.select(&cell_sel).map(|c| c.inner_html()).collect(),
    }).collect()
}

/// Selector of the description table's rows.
pub const ROW_SELECTOR: &'static str = "tr";

/// Selector of a row's header cells.
pub const HEADER_SELECTOR: &'static str = "th";

/// Selector of a row's data cells.
pub const CELL_SELECTOR: &'static str = "td";

/// The rows of a description's table, as scraper selects them.
pub open spec fn description_rows(description: Seq<char>) -> Seq<(Seq<Seq<char>>, Seq<Seq<char>>)> {
    html_table_cells(description, ROW_SELECTOR@, HEADER_SELECTOR@, CELL_SELECTOR@)
}

/// Reads the table in a feed item's description (HTML) into the word, and
/// returns the lower-cased headers whose cells were not read.
pub fn fill_from_description(word: &mut ItalianWord, description: &str) -> (unknown: Vec<String>)
    ensures
        final(word)@ == table_applied(old(word)@, description_rows(description@)),
        unknown.deep_view() == table_unknown(description_rows(description@)),
{
    proof {
        reveal_strlit("tr");
        reveal_strlit("th");
        reveal_strlit("td");
    }
    let rows = select_table_cells(description, ROW_SELECTOR, HEADER_SELECTOR, CELL_SELECTOR);
    fill_from_table(word, &rows)
}

/// One item of the feed, with the two parts the word is read from.
pub struct FeedItem {
    pub title: Option<String>,
    pub description: Option<String>,
}

impl View for FeedItem {
    type V = (Option<Seq<char>>, Option<Seq<char>>);

    open spec fn view(&self) -> (Option<Seq<char>>, Option<Seq<char>>) {
        (self.title.deep_view(), self.description.deep_view())
    }
}

/// The views of a list of feed items.
pub open spec fn items_view(items: Seq<FeedItem>) -> Seq<(Option<Seq<char>>, Option<Seq<char>>)> {
    items.map_values(|i: FeedItem| i@)
}

/// Why no word of the day could be read from the feed.
#[derive(Debug)]
pub enum ItalianError {
    /// The feed is not an RSS channel that the rss crate can read; holds the
    /// rss crate's error.
    RssError(rss::Error),
    /// The channel has no item.
    WordError,
    /// The first item has no description.
    DescriptionError,
}

/// Which of the three refusals an [`ItalianError`] is.
#[derive(Debug, PartialEq, Eq, Structural)]
pub enum ItalianErrorKind {
    Rss,
    Word,
    Description,
}

impl View for ItalianError {
    type V = ItalianErrorKind;

    open spec fn view(&self) -> ItalianErrorKind {
        match self {
            ItalianError::RssError(_) => ItalianErrorKind::Rss,
            ItalianError::WordError => ItalianErrorKind::Word,
            ItalianError::DescriptionError => ItalianErrorKind::Description,
        }
    }
}

#[verifier::external_type_specification]
#[verifier::external_body]
pub struct ExRssError(rss::Error);

/// What the rss crate's `Channel::read_from` makes of the feed's bytes: the
/// title and description of each item of the channel, in order, or `None`
/// where it refuses the bytes.
pub uninterp spec fn rss_channel_items(feed: Seq<u8>) -> Option<Seq<(Option<Seq<char>>, Option<Seq<char>>)>>;

/// Reads the feed with the rss crate's `Channel::read_from` and keeps the
/// title and description of each item. The outcome is taken to be a function
/// of the bytes alone (`rss_channel_items`); of the error nothing is stated.
#[verifier::external_body]
fn read_channel_items(feed: &[u8]) -> (res: Result<Vec<FeedItem>, rss::Error>)
    ensures
        match res {
            Ok(items) => rss_channel_items(feed@) == Some(items_view(items@)),
            Err(_) => rss_channel_items(feed@) is None,
        },
{
    rss::Channel::read_from(feed).map(|channel| channel.items.into_iter().map(|item| FeedItem {
        title: item.title,
        description: item.description,
    }).collect())
}

/// The word shown when the first item has no title.
pub const MISSING_WORD: &'static str = "WORD NOT FOUND";

/// A word of the day read from the feed, with the lower-cased headers of the
/// description's table whose cells were not read (one warning each).
pub struct WordReading {
    pub word: ItalianWord,
    pub unknown_headers: Vec<String>,
}

impl View for WordReading {
    type V = (ItalianWordView, Seq<Seq<char>>);

    open spec fn view(&self) -> (ItalianWordView, Seq<Seq<char>>) {
        (self.word@, self.unknown_headers.deep_view())
    }
}

/// The word the first item names: its title, or [`MISSING_WORD`].
pub open spec fn first_word(title: Option<Seq<char>>) -> Seq<char> {
    match title {
        Some(title) => title,
        None => MISSING_WORD@,
    }
}

/// The word of the day read from the feed's items: the first item gives the
/// word (its title, or [`MISSING_WORD`]) and, through the table in its
/// description, the other fields and the unknown headers.
pub open spec fn word_outcome(items: Seq<(Option<Seq<char>>, Option<Seq<char>>)>) -> Result<(ItalianWordView, Seq<Seq<char>>), ItalianErrorKind> {
    if items.len() == 0 {
        Err(ItalianErrorKind::Word)
    } else {
        match items[0].1 {
            None => Err(ItalianErrorKind::Description),
            Some(description) => {
                let start = ItalianWordView { word: first_word(items[0].0), ..empty_word() };
                let rows = description_rows(description);
                Ok((table_applied(start, rows), table_unknown(rows)))
            },
        }
    }
}

/// The word of the day read from the feed's bytes.
pub open spec fn italian_outcome(feed: Seq<u8>) -> Result<(ItalianWordView, Seq<Seq<char>>), ItalianErrorKind> {
    match rss_channel_items(feed) {
        None => Err(ItalianErrorKind::Rss),
        Some(items) => word_outcome(items),
    }
}

/// A reading, or why there is none, as a result the contracts can compare.
pub open spec fn result_view(res: Result<WordReading, ItalianError>) -> Result<(ItalianWordView, Seq<Seq<char>>), ItalianErrorKind> {
    match res {
        Ok(r) => Ok(r@),
        Err(e) => Err(e@),
    }
}

/// Reads the word of the day from the items of the feed.
pub fn word_from_items(items: &Vec<FeedItem>) -> (res: Result<WordReading, ItalianError>)
    ensures
        result_view(res) == word_outcome(items_view(items@)),
        res is Ok <==> (items@.len() > 0 && items@[0].description is Some),
        res matches Ok(r) ==> (items@[0].title matches Some(t) ==> r.word.word@ == t@),
        res matches Ok(r) ==> (items@[0].title is None ==> r.word.word@ == "WORD NOT FOUND"@),
{
    if items.len() == 0 {
        return Err(ItalianError::WordError);
    }
    let first = &items[0];
    let mut word = ItalianWord::default();
    match &first.title {
        Some(title) => word.word = title.clone(),
        None => word.word = String::from_str(MISSING_WORD),
    }
    match &first.description {
        None => Err(ItalianError::DescriptionError),
        Some(description) => {
            let ghost start = word@;
            let unknown_headers = fill_from_description(&mut word, description.as_str());
            proof {
                lemma_table_keeps_word(start, description_rows(description@));
            }
            Ok(WordReading { word, unknown_headers })
        },
    }
}

/// Reads the word of the day from the feed's bytes (an RSS document). An
/// unreadable feed is refused with the rss crate's error.
pub fn italian_word(feed: &[u8]) -> (res: Result<WordReading, ItalianError>)
    ensures
        result_view(res) == italian_outcome(feed@),
{
    match read_channel_items(feed) {
        Err(e) => Err(ItalianError::RssError(e)),
        Ok(items) => word_from_items(&items),
    }
}

/// Reading table cells never touches the word itself, only the other three
/// fields.
pub proof fn lemma_cells_keep_word(w: ItalianWordView, pairs: Seq<(Seq<char>, Seq<char>)>)
    ensures
        cells_applied(w, pairs).word == w.word,
    decreases pairs.len(),
{
    if pairs.len() > 0 {
        lemma_cells_keep_word(w, pairs.drop_last());
    }
}

/// Reading a description's table never touches the word itself.
pub proof fn lemma_table_keeps_word(w: ItalianWordView, rows: Seq<(Seq<Seq<char>>, Seq<Seq<char>>)>)
    ensures
        table_applied(w, rows).word == w.word,
    decreases rows.len(),
{
    if rows.len() > 0 {
        lemma_table_keeps_word(w, rows.drop_last());
        lemma_cells_keep_word(table_applied(w, rows.drop_last()), row_pairs(rows.last()));
    }
}

/// Whether none of the given cells sits under a known header.
pub open spec fn all_unknown(pairs: Seq<(Seq<char>, Seq<char>)>) -> bool {
    forall|i: int| 0 <= i < pairs.len() ==> !is_known_header(#[trigger] header_key(pairs[i].0))
}

/// Cells under headers that are none of the three known ones leave the word
/// as it was, and each of them is reported by its lower-cased header.
pub proof fn lemma_unknown_cells_ignored(w: ItalianWordView, pairs: Seq<(Seq<char>, Seq<char>)>)
    requires
        all_unknown(pairs),
    ensures
        cells_applied(w, pairs) == w,
        cells_unknown(pairs) == pairs.map_values(|p: (Seq<char>, Seq<char>)| header_key(p.0)),
    decreases pairs.len(),
{
    if pairs.len() > 0 {
        assert(!is_known_header(header_key(pairs[pairs.len() - 1].0)));
        lemma_unknown_cells_ignored(w, pairs.drop_last());
        assert(pairs.map_values(|p: (Seq<char>, Seq<char>)| header_key(p.0)) =~= pairs.drop_last().map_values(
            |p: (Seq<char>, Seq<char>)| header_key(p.0),
        ).push(header_key(pairs.last().0)));
    } else {
        assert(pairs.map_values(|p: (Seq<char>, Seq<char>)| header_key(p.0)) =~= Seq::<Seq<char>>::empty());
    }
}

/// Reading pairs in two runs is reading them in one: the later cell under a
/// known header wins over an earlier one, and the unknown headers of the two
/// runs follow one another.
pub proof fn lemma_cells_compose(
    w: ItalianWordView,
    first: Seq<(Seq<char>, Seq<char>)>,
    second: Seq<(Seq<char>, Seq<char>)>,
)
    ensures
        cells_applied(w, first + second) == cells_applied(cells_applied(w, first), second),
        cells_unknown(first + second) == cells_unknown(first) + cells_unknown(second),
    decreases second.len(),
{
    if second.len() == 0 {
        assert(first + second =~= first);
        assert(cells_unknown(first) + cells_unknown(second) =~= cells_unknown(first));
    } else {
        assert((first + second).drop_last() =~= first + second.drop_last());
        lemma_cells_compose(w, first, second.drop_last());
        let key = header_key(second.last().0);
        if !is_known_header(key) {
            assert(cells_unknown(first) + cells_unknown(second.drop_last()).push(key) =~= (
            cells_unknown(first) + cells_unknown(second.drop_last())).push(key));
        }
    }
}

/// Reading rows in two runs is reading them in one, so a later row
/// overrides what an earlier row set; the unknown headers of the two runs
/// follow one another.
pub proof fn lemma_table_compose(
    w: ItalianWordView,
    first: Seq<(Seq<Seq<char>>, Seq<Seq<char>>)>,
    second: Seq<(Seq<Seq<char>>, Seq<Seq<char>>)>,
)
    ensures
        table_applied(w, first + second) == table_applied(table_applied(w, first), second),
        table_unknown(first + second) == table_unknown(first) + table_unknown(second),
    decreases second.len(),
{
    if second.len() == 0 {
        assert(first + second =~= first);
        assert(table_unknown(first) + table_unknown(second) =~= table_unknown(first));
    } else {
        assert((first + second).drop_last() =~= first + second.drop_last());
        lemma_table_compose(w, first, second.drop_last());
        assert(table_unknown(first) + (table_unknown(second.drop_last()) + cells_unknown(row_pairs(second.last())))
            =~= (table_unknown(first) + table_unknown(second.drop_last())) + cells_unknown(row_pairs(second.last())));
    }
}

/// A table row none of whose cells sits under a known header changes no
/// field wherever it stands among the rows; it only adds its headers, in
/// order, to the warnings.
pub proof fn lemma_unknown_row_ignored(
    w: ItalianWordView,
    before: Seq<(Seq<Seq<char>>, Seq<Seq<char>>)>,
    row: (Seq<Seq<char>>, Seq<Seq<char>>),
    after: Seq<(Seq<Seq<char>>, Seq<Seq<char>>)>,
)
    requires
        all_unknown(row_pairs(row)),
    ensures
        table_applied(w, before + seq![row] + after) == table_applied(w, before + after),
        table_unknown(before + seq![row] + after) == table_unknown(before) + cells_unknown(row_pairs(row))
            + table_unknown(after),
{
    let single = seq![row];
    lemma_table_compose(w, before + single, after);
    lemma_table_compose(w, before, single);
    lemma_table_compose(w, before, after);
    let mid = table_applied(w, before);
    assert(single.drop_last() =~= Seq::<(Seq<Seq<char>>, Seq<Seq<char>>)>::empty());
    lemma_unknown_cells_ignored(mid, row_pairs(row));
    assert(single.last() == row);
    assert(table_applied(mid, single.drop_last()) == mid);
    assert(table_unknown(single.drop_last()) == Seq::<Seq<char>>::empty());
    assert(table_applied(mid, single) == cells_applied(mid, row_pairs(row)));
    assert(table_unknown(single) =~= cells_unknown(row_pairs(row)));
}

/// A header written in upper or mixed ASCII case is recognised as the
/// lower-case one: "Part of Speech:" is read as the part of speech.
pub proof fn lemma_mixed_case_header_recognised()
    ensures
        header_key("Part of Speech:"@) == PART_OF_SPEECH_HEADER@,
{
    reveal_strlit("Part of Speech:");
    reveal_strlit("part of speech:");
    let h = "Part of Speech:"@;
    assert(all_ascii(h));
    assert(ascii_lowercase(h) =~= PART_OF_SPEECH_HEADER@);
}

/// A word read from the feed is the first item's title, or [`MISSING_WORD`]
/// when that item has none, whatever its description holds.
pub proof fn lemma_word_is_first_title(items: Seq<(Option<Seq<char>>, Option<Seq<char>>)>)
    ensures
        word_outcome(items) matches Ok(r) ==> r.0.word == first_word(items[0].0),
{
    if items.len() > 0 {
        if let Some(description) = items[0].1 {
            let start = ItalianWordView { word: first_word(items[0].0), ..empty_word() };
            lemma_table_keeps_word(start, description_rows(description));
        }
    }
}

/// Whether the feed's bytes give a word decides on the first item alone: the
/// word is refused exactly when the feed is unreadable, has no item, or its
/// first item has no description.
pub proof fn lemma_refusals(feed: Seq<u8>)
    ensures
        italian_outcome(feed) matches Err(ItalianErrorKind::Rss) <==> rss_channel_items(feed) is None,
        italian_outcome(feed) matches Err(ItalianErrorKind::Word)
            <==> (rss_channel_items(feed) matches Some(items) && items.len() == 0),
        italian_outcome(feed) matches Err(ItalianErrorKind::Description)
            <==> (rss_channel_items(feed) matches Some(items) && items.len() > 0 && items[0].1 is None),
{
}

/// Under each known header the field takes the cell's text in full and the
/// other three fields stay; under any other header nothing changes.
pub proof fn lemma_cell_sets_its_field(w: ItalianWordView, header: Seq<char>, value: Seq<char>)
    ensures
        ({
            let r = cell_applied(w, "part of speech:"@, value);
            &&& r.part_of_speech == value
            &&& r.word == w.word
            &&& r.italian_sentence == w.italian_sentence
            &&& r.english_sentence == w.english_sentence
        }),
        ({
            let r = cell_applied(w, "example sentence:"@, value);
            &&& r.italian_sentence == value
            &&& r.word == w.word
            &&& r.part_of_speech == w.part_of_speech
            &&& r.english_sentence == w.english_sentence
        }),
        ({
            let r = cell_applied(w, "sentence meaning:"@, value);
            &&& r.english_sentence == value
            &&& r.word == w.word
            &&& r.part_of_speech == w.part_of_speech
            &&& r.italian_sentence == w.italian_sentence
        }),
        header != "part of speech:"@ && header != "example sentence:"@ && header != "sentence meaning:"@
            ==> cell_applied(w, header, value) == w,
{
    reveal_strlit("part of speech:");
    reveal_strlit("example sentence:");
    reveal_strlit("sentence meaning:");
    assert("part of speech:"@[0] != "example sentence:"@[0]);
    assert("part of speech:"@[0] != "sentence meaning:"@[0]);
    assert("example sentence:"@[0] != "sentence meaning:"@[0]);
}

/// Of several cells, the last one under a known header decides its field:
/// that field holds the last cell's text in full.
pub proof fn lemma_last_cell_wins(
    w: ItalianWordView,
    pairs: Seq<(Seq<char>, Seq<char>)>,
    header: Seq<char>,
    value: Seq<char>,
)
    ensures
        header_key(header) == "part of speech:"@
            ==> cells_applied(w, pairs.push((header, value))).part_of_speech == value,
        header_key(header) == "example sentence:"@
            ==> cells_applied(w, pairs.push((header, value))).italian_sentence == value,
        header_key(header) == "sentence meaning:"@
            ==> cells_applied(w, pairs.push((header, value))).english_sentence == value,
{
    let p = pairs.push((header, value));
    assert(p.drop_last() =~= pairs);
    assert(p.last() == (header, value));
    lemma_cell_sets_its_field(cells_applied(w, pairs), header_key(header), value);
}

/// A row's pairs are its headers and data cells taken side by side, as many
/// as the shorter list holds.
pub proof fn lemma_row_pairs_side_by_side(row: (Seq<Seq<char>>, Seq<Seq<char>>))
    ensures
        row_pairs(row).len() <= row.0.len(),
        row_pairs(row).len() <= row.1.len(),
        row_pairs(row).len() == row.0.len() || row_pairs(row).len() == row.1.len(),
        forall|i: int| 0 <= i < row_pairs(row).len() ==> #[trigger] row_pairs(row)[i] == (row.0[i], row.1[i]),
{
}

/// An ASCII header is recognised by its ASCII lower-case: same length, A–Z
/// turned into a–z, every other character kept.
pub proof fn lemma_ascii_header_key(header: Seq<char>)
    requires
        all_ascii(header),
    ensures
        header_key(header).len() == header.len(),
        forall|i: int| 0 <= i < header.len() ==> {
            let c = #[trigger] header[i];
            &&& ('A' <= c && c <= 'Z' ==> header_key(header)[i] as u32 == c as u32 + 32)
            &&& (!('A' <= c && c <= 'Z') ==> header_key(header)[i] == c)
        },
{
}

/// The word read from the items is the first item's title in full, or
/// "WORD NOT FOUND" when that item has no title; a word is read exactly when
/// there is a first item and it has a description, and only the first item
/// counts, whatever later items hold.
pub proof fn lemma_first_title_in_full(items: Seq<(Option<Seq<char>>, Option<Seq<char>>)>)
    ensures
        word_outcome(items) is Ok <==> (items.len() > 0 && items[0].1 is Some),
        word_outcome(items) matches Ok(r) ==> (items[0].0 matches Some(t) ==> r.0.word == t),
        word_outcome(items) matches Ok(r) ==> (items[0].0 is None ==> r.0.word == "WORD NOT FOUND"@),
        items.len() > 0 ==> word_outcome(items) == word_outcome(seq![items[0]]),
{
    lemma_word_is_first_title(items);
}

/// Whenever the feed parses, its items decide the outcome with the first one
/// deciding; an unreadable feed is refused.
pub proof fn lemma_first_item_decides(feed: Seq<u8>)
    ensures
        rss_channel_items(feed) matches Some(items) ==> italian_outcome(feed) == word_outcome(items),
        rss_channel_items(feed) is None ==> italian_outcome(feed) == Err::<(ItalianWordView, Seq<Seq<char>>), ItalianErrorKind>(ItalianErrorKind::Rss),
        italian_outcome(feed) matches Ok(r) ==> (rss_channel_items(feed) matches Some(items)
            && items.len() > 0 && items[0].1 is Some
            && (items[0].0 matches Some(t) ==> r.0.word == t)),
{
    if let Some(items) = rss_channel_items(feed) {
        lemma_first_title_in_full(items);
    }
}

/// Reading one cell lower-cases its header and stores its text; reading one
/// row reads its header/cell pairs in order; no rows change nothing.
pub proof fn lemma_single_steps(
    w: ItalianWordView,
    header: Seq<char>,
    value: Seq<char>,
    row: (Seq<Seq<char>>, Seq<Seq<char>>),
)
    ensures
        cells_applied(w, seq![(header, value)]) == cell_applied(w, header_key(header), value),
        cells_unknown(seq![(header, value)]) == (if is_known_header(header_key(header)) {
            Seq::<Seq<char>>::empty()
        } else {
            seq![header_key(header)]
        }),
        table_applied(w, seq![row]) == cells_applied(w, row_pairs(row)),
        table_unknown(seq![row]) == cells_unknown(row_pairs(row)),
        table_applied(w, Seq::empty()) == w,
        table_unknown(Seq::empty()) == Seq::<Seq<char>>::empty(),
{
    let p = seq![(header, value)];
    assert(p.drop_last() =~= Seq::<(Seq<char>, Seq<char>)>::empty());
    assert(p.last() == (header, value));
    assert(cells_applied(w, p.drop_last()) == w);
    assert(cells_unknown(p.drop_last()) == Seq::<Seq<char>>::empty());
    let rs = seq![row];
    assert(rs.drop_last() =~= Seq::<(Seq<Seq<char>>, Seq<Seq<char>>)>::empty());
    assert(rs.last() == row);
    assert(table_applied(w, rs.drop_last()) == w);
    assert(table_unknown(rs.drop_last()) == Seq::<Seq<char>>::empty());
    assert(Seq::<Seq<char>>::empty() + cells_unknown(row_pairs(row)) =~= cells_unknown(row_pairs(row)));
    if !is_known_header(header_key(header)) {
        assert(Seq::<Seq<char>>::empty().push(header_key(header)) =~= seq![header_key(header)]);
    }
}

/// The description's table is read from its `tr` rows, their `th` header
/// cells and their `td` data cells.
pub proof fn lemma_description_selectors(description: Seq<char>)
    ensures
        description_rows(description) == html_table_cells(description, "tr"@, "th"@, "td"@),
{
}

} // verus!
