//! The shared technical reference: locales, catalog entries, localized
//! views and the ranked search over the catalog.
use vstd::prelude::*;
use crate::text::{
    chars_eq, chars_eq_str, chars_of, contains, contains_exec, is_ascii_alnum, lower, lower_chars, push_char,
    push_chars, split_ws, string_of, to_lower, tokens, views, is_whitespace,
};
use crate::reference_catalog::{catalog, catalog_spec};
use crate::text::{text_lt, text_lt_exec};


verus! {

broadcast use vstd::string::group_string_axioms;

#[derive(Debug, Clone, Copy, PartialEq, Eq, Structural)]
pub enum Audience {
    Beginner,
    Expert,
}

#[derive(Debug, Clone, Copy, PartialEq, Eq, Structural)]
pub enum MetricStatus {
    Implemented,
    Partial,
    Planned,
}

#[derive(Debug, Clone, Copy, PartialEq, Eq, Structural)]
pub enum UiVisibility {
    Visible,
    IndexedOnly,
}

#[derive(Debug, Clone, Copy, PartialEq, Eq, Structural)]
pub enum Locale {
    Fr,
    En,
}

impl Locale {
    pub open spec fn code_spec(self) -> Seq<char> {
        match self {
            Locale::Fr => seq!['f', 'r'],
            Locale::En => seq!['e', 'n'],
        }
    }

    pub open spec fn parse_spec(value: Seq<char>) -> Locale {
        let l = crate::text::lower_seq(value);
        if l == seq!['e', 'n'] || l == "en-us"@ || l == "en-gb"@ {
            Locale::En
        } else {
            Locale::Fr
        }
    }

    /// `en`, `en-us` or `en-gb` in any ASCII case is English; anything else
    /// is French.
    pub fn parse(value: &str) -> (r: Self)
        ensures
            r == Self::parse_spec(value@),
    {
        let l = lower_chars(&chars_of(value));
        let en = l.len() == 2 && l[0] == 'e' && l[1] == 'n';
        proof {
            if en {
                assert(l@ =~= seq!['e', 'n']);
            }
            if l@ == seq!['e', 'n'] {
                assert(l@[0] == 'e' && l@[1] == 'n');
            }
        }
        if en || chars_eq(&l, &chars_of("en-us")) || chars_eq(&l, &chars_of("en-gb")) {
            Locale::En
        } else {
            Locale::Fr
        }
    }

    /// The two-letter code of the locale.
    pub fn code(self) -> (r: &'static str)
        ensures
            r@ == self.code_spec(),
    {
        match self {
            Locale::Fr => {
                proof {
                    reveal_strlit("fr");
                }
                "fr"
            },
            Locale::En => {
                proof {
                    reveal_strlit("en");
                }
                "en"
            },
        }
    }

    pub open spec fn next_spec(self) -> Locale {
        match self {
            Locale::Fr => Locale::En,
            Locale::En => Locale::Fr,
        }
    }

    /// The other locale.
    pub fn next(self) -> (r: Self)
        ensures
            r == self.next_spec(),
    {
        match self {
            Locale::Fr => Locale::En,
            Locale::En => Locale::Fr,
        }
    }
}

/// Switching the locale twice gives it back, and a locale reads back from
/// its own code.
pub proof fn law_locale_round_trip(l: Locale)
    ensures
        l.next_spec().next_spec() == l,
        l.next_spec() != l,
        Locale::parse_spec(l.code_spec()) == l,
{
    let c = l.code_spec();
    reveal_strlit("en-us");
    reveal_strlit("en-gb");
    assert(crate::text::lower_seq(c) =~= c);
}

#[derive(Debug, Clone, Copy)]
pub struct ReferenceText {
    pub title: &'static str,
    pub summary: &'static str,
    pub beginner: &'static str,
    pub expert: &'static str,
}

#[derive(Debug, Clone)]
pub struct ReferenceEntry {
    pub id: &'static str,
    pub category: &'static str,
    pub panel: &'static str,
    pub status: MetricStatus,
    pub ui_visibility: UiVisibility,
    pub audience: Audience,
    pub aliases: Vec<&'static str>,
    pub tags: Vec<&'static str>,
    pub fr: ReferenceText,
    pub en: ReferenceText,
}

#[derive(Debug, Clone)]
pub struct ReferenceEntryView {
    pub id: &'static str,
    pub category: &'static str,
    pub panel: &'static str,
    pub status: MetricStatus,
    pub ui_visibility: UiVisibility,
    pub audience: Audience,
    pub title: &'static str,
    pub summary: &'static str,
    pub beginner: &'static str,
    pub expert: &'static str,
    pub aliases: Vec<&'static str>,
    pub tags: Vec<&'static str>,
}

#[derive(Debug, Clone)]
pub struct SearchHit {
    pub score: usize,
    pub entry: ReferenceEntryView,
}

/// What the contracts read of a catalog entry: its strings, and its
/// aliases and tags as sequences.
pub struct EntryModel {
    pub id: &'static str,
    pub category: &'static str,
    pub panel: &'static str,
    pub status: MetricStatus,
    pub ui_visibility: UiVisibility,
    pub audience: Audience,
    pub aliases: Seq<&'static str>,
    pub tags: Seq<&'static str>,
    pub fr: ReferenceText,
    pub en: ReferenceText,
}

pub open spec fn model_of(e: ReferenceEntry) -> EntryModel {
    EntryModel {
        id: e.id,
        category: e.category,
        panel: e.panel,
        status: e.status,
        ui_visibility: e.ui_visibility,
        audience: e.audience,
        aliases: e.aliases@,
        tags: e.tags@,
        fr: e.fr,
        en: e.en,
    }
}

pub open spec fn models(c: Seq<ReferenceEntry>) -> Seq<EntryModel> {
    c.map_values(|e: ReferenceEntry| model_of(e))
}

/// The text of an entry in a locale.
pub open spec fn text_of(m: EntryModel, locale: Locale) -> ReferenceText {
    match locale {
        Locale::Fr => m.fr,
        Locale::En => m.en,
    }
}

/// Whether `v` is the view of entry `m` in `locale`.
pub open spec fn is_view_of(v: ReferenceEntryView, m: EntryModel, locale: Locale) -> bool {
    let t = text_of(m, locale);
    &&& v.id == m.id
    &&& v.category == m.category
    &&& v.panel == m.panel
    &&& v.status == m.status
    &&& v.ui_visibility == m.ui_visibility
    &&& v.audience == m.audience
    &&& v.title == t.title
    &&& v.summary == t.summary
    &&& v.beginner == t.beginner
    &&& v.expert == t.expert
    &&& v.aliases@ == m.aliases
    &&& v.tags@ == m.tags
}

fn copy_strs(v: &Vec<&'static str>) -> (r: Vec<&'static str>)
    ensures
        r@ == v@,
{
    let mut out: Vec<&'static str> = Vec::new();
    let mut i: usize = 0;
    while i < v.len()
        invariant
            i <= v.len(),
            out@ == v@.take(i as int),
        decreases v.len() - i,
    {
        out.push(v[i]);
        assert(v@.take(i + 1) =~= v@.take(i as int).push(v@[i as int]));
        i += 1;
    }
    assert(v@.take(v.len() as int) =~= v@);
    out
}

/// The entry as shown in `locale`.
pub fn to_view(entry: &ReferenceEntry, locale: Locale) -> (r: ReferenceEntryView)
    ensures
        is_view_of(r, model_of(*entry), locale),
{
    let text = match locale {
        Locale::Fr => entry.fr,
        Locale::En => entry.en,
    };
    ReferenceEntryView {
        id: entry.id,
        category: entry.category,
        panel: entry.panel,
        status: entry.status,
        ui_visibility: entry.ui_visibility,
        audience: entry.audience,
        title: text.title,
        summary: text.summary,
        beginner: text.beginner,
        expert: text.expert,
        aliases: copy_strs(&entry.aliases),
        tags: copy_strs(&entry.tags),
    }
}

// ─── Normalization ──────────────────────────────────────────────────────────
pub open spec fn alnum_or_space(c: char) -> char {
    if is_ascii_alnum(c) {
        c
    } else {
        ' '
    }
}

/// Words joined by single spaces.
pub open spec fn join_words(ws: Seq<Seq<char>>) -> Seq<char>
    decreases ws.len(),
{
    if ws.len() == 0 {
        Seq::empty()
    } else if ws.len() == 1 {
        ws[0]
    } else {
        join_words(ws.drop_last()) + seq![' '] + ws.last()
    }
}

/// A search key: ASCII lowercase, every other character than ASCII letters
/// and digits read as a space, words joined by single spaces.
pub open spec fn normalize_spec(s: Seq<char>) -> Seq<char> {
    join_words(tokens(Seq::new(s.len(), |i: int| alnum_or_space(lower(s[i])))))
}

fn normalize_chars(v: &Vec<char>) -> (r: Vec<char>)
    ensures
        r@ == normalize_spec(v@),
{
    let mut mapped: Vec<char> = Vec::new();
    let mut i: usize = 0;
    while i < v.len()
        invariant
            i <= v.len(),
            mapped@ =~= Seq::new(i as nat, |k: int| alnum_or_space(lower(v@[k]))),
        decreases v.len() - i,
    {
        let c = to_lower(v[i]);
        let keep = ('0' <= c && c <= '9') || ('a' <= c && c <= 'z') || ('A' <= c && c <= 'Z');
        mapped.push(
            if keep {
                c
            } else {
                ' '
            },
        );
        i += 1;
    }
    assert(mapped@ =~= Seq::new(v@.len(), |k: int| alnum_or_space(lower(v@[k]))));
    let words = split_ws(&mapped);
    let mut out: Vec<char> = Vec::new();
    let mut w: usize = 0;
    while w < words.len()
        invariant
            w <= words.len(),
            out@ == join_words(views(words@).take(w as int)),
        decreases words.len() - w,
    {
        let ghost ws = views(words@).take(w + 1);
        assert(ws.drop_last() =~= views(words@).take(w as int));
        assert(ws.last() == words@[w as int]@);
        if w > 0 {
            out.push(' ');
        }
        let mut k: usize = 0;
        let ghost base = out@;
        while k < words[w].len()
            invariant
                w < words.len(),
                k <= words@[w as int]@.len(),
                out@ == base + words@[w as int]@.take(k as int),
            decreases words@[w as int]@.len() - k,
        {
            out.push(words[w][k]);
            assert(words@[w as int]@.take(k + 1) =~= words@[w as int]@.take(k as int).push(
                words@[w as int]@[k as int],
            ));
            k += 1;
        }
        assert(words@[w as int]@.take(words@[w as int]@.len() as int) =~= words@[w as int]@);
        proof {
            if w == 0 {
                assert(ws =~= seq![ws.last()]);
            }
        }
        w += 1;
    }
    assert(views(words@).take(words.len() as int) =~= views(words@));
    out
}

/// Normalizes a search query or a searchable term.
pub fn normalize(value: &str) -> (r: String)
    ensures
        r@ == normalize_spec(value@),
{
    string_of(&normalize_chars(&chars_of(value)))
}

// ─── Scoring ────────────────────────────────────────────────────────────────
/// The terms that search looks at: id, panel, the French and English titles
/// and summaries, then the aliases and the tags.
pub open spec fn search_terms_spec(e: EntryModel) -> Seq<&'static str> {
    seq![e.id, e.panel, e.fr.title, e.fr.summary, e.en.title, e.en.summary] + e.aliases + e.tags
}

/// Every word of `parts` occurs in `n`.
pub open spec fn all_parts_in(parts: Seq<Seq<char>>, n: Seq<char>) -> bool {
    forall|i: int| 0 <= i < parts.len() ==> contains(n, #[trigger] parts[i])
}

/// How well one term answers a normalized query: 100 for the same words,
/// 60 when the query occurs in it, 30 when each query word does, else 0.
pub open spec fn term_score(term: Seq<char>, q: Seq<char>) -> nat {
    let n = normalize_spec(term);
    if n == q {
        100
    } else if contains(n, q) {
        60
    } else if all_parts_in(tokens(q), n) {
        30
    } else {
        0
    }
}

pub open spec fn max_score(terms: Seq<&'static str>, q: Seq<char>) -> nat
    decreases terms.len(),
{
    if terms.len() == 0 {
        0
    } else {
        let m = max_score(terms.drop_last(), q);
        let s = term_score(terms.last()@, q);
        if s > m {
            s
        } else {
            m
        }
    }
}

/// The score of an entry for a normalized query: 1 for the empty query,
/// else the best score of its terms, `None` when that is 0.
pub open spec fn score_spec(e: EntryModel, q: Seq<char>) -> Option<nat> {
    if q.len() == 0 {
        Some(1)
    } else {
        let m = max_score(search_terms_spec(e), q);
        if m == 0 {
            None
        } else {
            Some(m)
        }
    }
}

/// The terms that search looks at for an entry.
pub fn search_terms(entry: &ReferenceEntry) -> (r: Vec<&'static str>)
    ensures
        r@ == search_terms_spec(model_of(*entry)),
{
    let mut terms: Vec<&'static str> = Vec::new();
    terms.push(entry.id);
    terms.push(entry.panel);
    terms.push(entry.fr.title);
    terms.push(entry.fr.summary);
    terms.push(entry.en.title);
    terms.push(entry.en.summary);
    let ghost base = terms@;
    let mut i: usize = 0;
    while i < entry.aliases.len()
        invariant
            i <= entry.aliases.len(),
            terms@ == base + entry.aliases@.take(i as int),
        decreases entry.aliases.len() - i,
    {
        terms.push(entry.aliases[i]);
        assert(entry.aliases@.take(i + 1) =~= entry.aliases@.take(i as int).push(
            entry.aliases@[i as int],
        ));
        i += 1;
    }
    assert(entry.aliases@.take(entry.aliases.len() as int) =~= entry.aliases@);
    let ghost base2 = terms@;
    let mut j: usize = 0;
    while j < entry.tags.len()
        invariant
            j <= entry.tags.len(),
            terms@ == base2 + entry.tags@.take(j as int),
        decreases entry.tags.len() - j,
    {
        terms.push(entry.tags[j]);
        assert(entry.tags@.take(j + 1) =~= entry.tags@.take(j as int).push(entry.tags@[j as int]));
        j += 1;
    }
    assert(entry.tags@.take(entry.tags.len() as int) =~= entry.tags@);
    assert(terms@ =~= search_terms_spec(model_of(*entry)));
    terms
}

fn term_score_exec(term: &str, q: &Vec<char>, parts: &Vec<Vec<char>>) -> (r: usize)
    requires
        views(parts@) == tokens(q@),
    ensures
        r == term_score(term@, q@),
{
    let n = normalize_chars(&chars_of(term));
    if chars_eq(&n, q) {
        100
    } else if contains_exec(&n, q) {
        60
    } else {
        let mut all = true;
        let mut i: usize = 0;
        while i < parts.len()
            invariant
                i <= parts.len(),
                views(parts@) == tokens(q@),
                all == forall|k: int| 0 <= k < i ==> contains(n@, #[trigger] views(parts@)[k]),
            decreases parts.len() - i,
        {
            assert(views(parts@)[i as int] == parts@[i as int]@);
            if !contains_exec(&n, &parts[i]) {
                all = false;
            }
            i += 1;
        }
        if all {
            30
        } else {
            0
        }
    }
}

fn score_entry_chars(entry: &ReferenceEntry, q: &Vec<char>) -> (r: Option<usize>)
    ensures
        match r {
            Some(s) => score_spec(model_of(*entry), q@) == Some(s as nat),
            None => score_spec(model_of(*entry), q@) is None,
        },
{
    if q.len() == 0 {
        return Some(1);
    }
    let parts = split_ws(q);
    let terms = search_terms(entry);
    let mut score: usize = 0;
    let mut i: usize = 0;
    while i < terms.len()
        invariant
            i <= terms.len(),
            views(parts@) == tokens(q@),
            score == max_score(terms@.take(i as int), q@),
            score <= 100,
        decreases terms.len() - i,
    {
        assert(terms@.take(i + 1).drop_last() =~= terms@.take(i as int));
        assert(terms@.take(i + 1).last() == terms@[i as int]);
        let s = term_score_exec(terms[i], q, &parts);
        if s > score {
            score = s;
        }
        i += 1;
    }
    assert(terms@.take(terms.len() as int) =~= terms@);
    if score == 0 {
        None
    } else {
        Some(score)
    }
}

/// The score of an entry for a query that is already normalized.
pub fn score_entry(entry: &ReferenceEntry, query: &str) -> (r: Option<usize>)
    ensures
        match r {
            Some(s) => score_spec(model_of(*entry), query@) == Some(s as nat),
            None => score_spec(model_of(*entry), query@) is None,
        },
{
    score_entry_chars(entry, &chars_of(query))
}

// ─── Ordering ───────────────────────────────────────────────────────────────
/// Whether the hit `(score_a, a)` (an entry index) is listed before the hit
/// `(score_b, b)`: higher score first, then title order in `locale`, then
/// catalog order.
pub open spec fn hit_before(c: Seq<EntryModel>, locale: Locale, a: (nat, int), b: (nat, int)) -> bool {
    let ta = text_of(c[a.1], locale).title@;
    let tb = text_of(c[b.1], locale).title@;
    ||| a.0 > b.0
    ||| (a.0 == b.0 && text_lt(ta, tb))
    ||| (a.0 == b.0 && ta == tb && a.1 < b.1)
}

/// `h` inserted into `s` before the first hit that it is listed before.
pub open spec fn insert_hit(
    c: Seq<EntryModel>,
    locale: Locale,
    s: Seq<(nat, int)>,
    h: (nat, int),
) -> Seq<(nat, int)>
    decreases s.len(),
{
    if s.len() == 0 {
        seq![h]
    } else if hit_before(c, locale, h, s[0]) {
        seq![h] + s
    } else {
        seq![s[0]] + insert_hit(c, locale, s.drop_first(), h)
    }
}

/// The entries among the first `n` of `c` that have a score in `scores`
/// (one per entry), ranked.
pub open spec fn ranked_by(
    c: Seq<EntryModel>,
    scores: Seq<Option<nat>>,
    locale: Locale,
    n: int,
) -> Seq<(nat, int)>
    decreases n,
{
    if n <= 0 {
        Seq::empty()
    } else {
        let prev = ranked_by(c, scores, locale, n - 1);
        match scores[n - 1] {
            Some(s) => insert_hit(c, locale, prev, (s, n - 1)),
            None => prev,
        }
    }
}

/// The score of each entry of `c` for the normalized query `q`.
pub open spec fn query_scores(c: Seq<EntryModel>, q: Seq<char>) -> Seq<Option<nat>> {
    Seq::new(c.len(), |i: int| score_spec(c[i], q))
}

/// The search result for catalog `c` and normalized query `q`: the matching
/// entries with their scores, best first, ties by title then catalog order.
pub open spec fn search_spec(c: Seq<EntryModel>, q: Seq<char>, locale: Locale) -> Seq<(nat, int)> {
    ranked_by(c, query_scores(c, q), locale, c.len() as int)
}

/// Whether `hits` are the hits `ranks` on catalog `c` in `locale`.
pub open spec fn hits_are(
    hits: Seq<SearchHit>,
    ranks: Seq<(nat, int)>,
    c: Seq<EntryModel>,
    locale: Locale,
) -> bool {
    &&& hits.len() == ranks.len()
    &&& forall|k: int|
        0 <= k < hits.len() ==> {
            &&& #[trigger] hits[k].score == ranks[k].0
            &&& 0 <= ranks[k].1 < c.len()
            &&& is_view_of(hits[k].entry, c[ranks[k].1], locale)
        }
}

proof fn lemma_insert_at(
    c: Seq<EntryModel>,
    locale: Locale,
    s: Seq<(nat, int)>,
    h: (nat, int),
    pos: int,
)
    requires
        0 <= pos <= s.len(),
        forall|k: int| 0 <= k < pos ==> !hit_before(c, locale, h, #[trigger] s[k]),
        pos < s.len() ==> hit_before(c, locale, h, s[pos]),
    ensures
        insert_hit(c, locale, s, h) == s.take(pos) + seq![h] + s.skip(pos),
    decreases pos,
{
    if pos == 0 {
        assert(s.take(0) + seq![h] + s.skip(0) =~= seq![h] + s);
        if s.len() == 0 {
            assert(seq![h] + s =~= seq![h]);
        }
    } else {
        let t = s.drop_first();
        assert forall|k: int| 0 <= k < pos - 1 implies !hit_before(c, locale, h, #[trigger] t[k]) by {
            assert(t[k] == s[k + 1]);
        }
        assert(!hit_before(c, locale, h, s[0]));
        lemma_insert_at(c, locale, t, h, pos - 1);
        assert(seq![s[0]] + (t.take(pos - 1) + seq![h] + t.skip(pos - 1)) =~= s.take(pos) + seq![h]
            + s.skip(pos));
    }
}

/// Where `insert_hit` puts `h`: before the first hit it is listed before.
pub open spec fn insert_pos(c: Seq<EntryModel>, locale: Locale, s: Seq<(nat, int)>, h: (nat, int)) -> int
    decreases s.len(),
{
    if s.len() == 0 || hit_before(c, locale, h, s[0]) {
        0
    } else {
        1 + insert_pos(c, locale, s.drop_first(), h)
    }
}

proof fn lemma_insert_shape(c: Seq<EntryModel>, locale: Locale, s: Seq<(nat, int)>, h: (nat, int))
    ensures
        0 <= insert_pos(c, locale, s, h) <= s.len(),
        insert_hit(c, locale, s, h) == s.take(insert_pos(c, locale, s, h)) + seq![h] + s.skip(
            insert_pos(c, locale, s, h),
        ),
        forall|k: int|
            0 <= k < insert_pos(c, locale, s, h) ==> !hit_before(c, locale, h, #[trigger] s[k]),
        insert_pos(c, locale, s, h) < s.len() ==> hit_before(
            c,
            locale,
            h,
            s[insert_pos(c, locale, s, h)],
        ),
    decreases s.len(),
{
    let p = insert_pos(c, locale, s, h);
    if s.len() == 0 || hit_before(c, locale, h, s[0]) {
        assert(s.take(0) + seq![h] + s.skip(0) =~= seq![h] + s);
        if s.len() == 0 {
            assert(seq![h] + s =~= seq![h]);
        }
    } else {
        let t = s.drop_first();
        lemma_insert_shape(c, locale, t, h);
        let pt = insert_pos(c, locale, t, h);
        assert(seq![s[0]] + (t.take(pt) + seq![h] + t.skip(pt)) =~= s.take(p) + seq![h] + s.skip(p));
        assert forall|k: int| 0 <= k < p implies !hit_before(c, locale, h, #[trigger] s[k]) by {
            if k > 0 {
                assert(s[k] == t[k - 1]);
            }
        }
        if p < s.len() {
            assert(s[p] == t[pt]);
        }
    }
}

/// Whether some hit of `s` is entry `i`.
pub open spec fn lists_entry(s: Seq<(nat, int)>, i: int) -> bool {
    exists|k: int| 0 <= k < s.len() && s[k].1 == i
}

/// Scores never rise along `s`.
pub open spec fn scores_sorted(s: Seq<(nat, int)>) -> bool {
    forall|i: int, j: int| 0 <= i < j < s.len() ==> (#[trigger] s[i]).0 >= (#[trigger] s[j]).0
}

/// Every entry occurs at most once in `s`.
pub open spec fn entries_distinct(s: Seq<(nat, int)>) -> bool {
    forall|i: int, j: int| 0 <= i < j < s.len() ==> (#[trigger] s[i]).1 != (#[trigger] s[j]).1
}

proof fn lemma_ranked(c: Seq<EntryModel>, sc: Seq<Option<nat>>, locale: Locale, n: int)
    requires
        0 <= n <= c.len(),
        sc.len() == c.len(),
    ensures
        scores_sorted(ranked_by(c, sc, locale, n)),
        entries_distinct(ranked_by(c, sc, locale, n)),
        forall|k: int|
            0 <= k < ranked_by(c, sc, locale, n).len() ==> {
                let h = #[trigger] ranked_by(c, sc, locale, n)[k];
                &&& 0 <= h.1 < n
                &&& sc[h.1] == Some(h.0)
            },
        forall|i: int|
            0 <= i < n && (#[trigger] sc[i]) is Some ==> lists_entry(
                ranked_by(c, sc, locale, n),
                i,
            ),
    decreases n,
{
    if n > 0 {
        lemma_ranked(c, sc, locale, n - 1);
        let prev = ranked_by(c, sc, locale, n - 1);
        let r = ranked_by(c, sc, locale, n);
        match sc[n - 1] {
            Some(v) => {
                let h = (v, n - 1);
                lemma_insert_shape(c, locale, prev, h);
                let p = insert_pos(c, locale, prev, h);
                assert(r == prev.take(p) + seq![h] + prev.skip(p));
                assert forall|k: int| 0 <= k < r.len() implies (k < p ==> r[k] == prev[k]) && (k
                    == p ==> r[k] == h) && (k > p ==> r[k] == prev[k - 1]) by {}
                if p > 0 {
                    assert(!hit_before(c, locale, h, prev[p - 1]));
                }
                if p < prev.len() {
                    assert(hit_before(c, locale, h, prev[p]));
                }
                assert forall|i: int, j: int| 0 <= i < j < r.len() implies (#[trigger] r[i]).0 >= (
                #[trigger] r[j]).0 by {
                    if i < p && j == p {
                        assert(!hit_before(c, locale, h, prev[i]));
                    } else if i == p && j > p {
                        assert(prev[p].0 >= prev[j - 1].0);
                    } else if i < p && j > p {
                        assert(prev[i].0 >= prev[j - 1].0);
                    } else if i > p {
                        assert(prev[i - 1].0 >= prev[j - 1].0);
                    } else {
                        assert(prev[i].0 >= prev[j].0);
                    }
                }
                assert forall|i: int, j: int| 0 <= i < j < r.len() implies (#[trigger] r[i]).1 != (
                #[trigger] r[j]).1 by {
                    if i < p && j == p {
                        assert(prev[i].1 < n - 1);
                    } else if i == p && j > p {
                        assert(prev[j - 1].1 < n - 1);
                    } else if i < p && j > p {
                        assert(prev[i].1 != prev[j - 1].1);
                    } else if i > p {
                        assert(prev[i - 1].1 != prev[j - 1].1);
                    } else {
                        assert(prev[i].1 != prev[j].1);
                    }
                }
                assert forall|i: int|
                    0 <= i < n && (#[trigger] sc[i]) is Some implies lists_entry(
                    r,
                    i,
                ) by {
                    if i == n - 1 {
                        assert(r[p].1 == i);
                    } else {
                        assert(lists_entry(prev, i));
                        let k = choose|k: int| 0 <= k < prev.len() && prev[k].1 == i;
                        if k < p {
                            assert(r[k].1 == i);
                        } else {
                            assert(r[k + 1].1 == i);
                        }
                    }
                }
            },
            None => {
                assert forall|i: int|
                    0 <= i < n && (#[trigger] sc[i]) is Some implies lists_entry(
                    r,
                    i,
                ) by {
                    assert(i != n - 1);
                    assert(lists_entry(prev, i));
                }
            },
        }
    }
}

/// The search result holds each answering entry once, with its score, and
/// no other entry; scores never rise from one hit to the next.
pub proof fn law_search_ranks_answering_entries(c: Seq<EntryModel>, q: Seq<char>, locale: Locale)
    ensures
        scores_sorted(search_spec(c, q, locale)),
        entries_distinct(search_spec(c, q, locale)),
        forall|k: int|
            0 <= k < search_spec(c, q, locale).len() ==> {
                let h = #[trigger] search_spec(c, q, locale)[k];
                &&& 0 <= h.1 < c.len()
                &&& score_spec(c[h.1], q) == Some(h.0)
            },
        forall|i: int|
            0 <= i < c.len() && (#[trigger] score_spec(c[i], q)) is Some ==> lists_entry(
                search_spec(c, q, locale),
                i,
            ),
{
    let sc = query_scores(c, q);
    lemma_ranked(c, sc, locale, c.len() as int);
    assert forall|i: int| 0 <= i < c.len() && (#[trigger] score_spec(c[i], q)) is Some implies lists_entry(
        search_spec(c, q, locale),
        i,
    ) by {
        assert(sc[i] == score_spec(c[i], q));
    }
}

/// A hit is in the search result exactly when it names an entry that
/// answers the query, with that entry's score.
proof fn lemma_search_members(c: Seq<EntryModel>, q: Seq<char>, locale: Locale, h: (nat, int))
    ensures
        search_spec(c, q, locale).contains(h) <==> (0 <= h.1 < c.len() && score_spec(c[h.1], q)
            == Some(h.0)),
        search_spec(c, q, locale).no_duplicates(),
{
    law_search_ranks_answering_entries(c, q, locale);
    let r = search_spec(c, q, locale);
    if 0 <= h.1 < c.len() && score_spec(c[h.1], q) == Some(h.0) {
        assert(lists_entry(r, h.1));
        let k = choose|k: int| 0 <= k < r.len() && r[k].1 == h.1;
        assert(score_spec(c[r[k].1], q) == Some(r[k].0));
        assert(r[k] == h);
    }
    if r.contains(h) {
        let k = choose|k: int| 0 <= k < r.len() && r[k] == h;
        assert(score_spec(c[r[k].1], q) == Some(r[k].0));
    }
    assert forall|i: int, j: int| 0 <= i < r.len() && 0 <= j < r.len() && i != j implies r[i]
        != r[j] by {
        if i < j {
            assert(r[i].1 != r[j].1);
        } else {
            assert(r[j].1 != r[i].1);
        }
    }
}

/// Both languages answer a query with the same entries and the same scores;
/// only the texts and the order among equal scores can differ.
pub proof fn law_search_same_in_both_locales(c: Seq<EntryModel>, q: Seq<char>)
    ensures
        search_spec(c, q, Locale::Fr).to_multiset() == search_spec(c, q, Locale::En).to_multiset(),
{
    broadcast use vstd::seq_lib::group_to_multiset_ensures;

    let fr = search_spec(c, q, Locale::Fr);
    let en = search_spec(c, q, Locale::En);
    assert forall|h: (nat, int)| fr.to_multiset().count(h) == en.to_multiset().count(h) by {
        lemma_search_members(c, q, Locale::Fr, h);
        lemma_search_members(c, q, Locale::En, h);
        fr.lemma_multiset_has_no_duplicates();
        en.lemma_multiset_has_no_duplicates();
    }
    assert(fr.to_multiset() =~= en.to_multiset());
}

/// Sequences with the same elements, counted, keep the same elements when
/// each element is mapped.
proof fn lemma_map_keeps_multiset<A, B>(s1: Seq<A>, s2: Seq<A>, g: spec_fn(A) -> B)
    requires
        s1.to_multiset() == s2.to_multiset(),
    ensures
        s1.map_values(g).to_multiset() == s2.map_values(g).to_multiset(),
    decreases s1.len(),
{
    broadcast use vstd::seq_lib::group_to_multiset_ensures;

    vstd::seq_lib::to_multiset_len(s1);
    vstd::seq_lib::to_multiset_len(s2);
    if s1.len() == 0 {
        assert(s2.len() == 0);
        assert(s1.map_values(g) =~= s2.map_values(g));
    } else {
        let a = s1.last();
        let t1 = s1.drop_last();
        assert(s1 =~= t1.push(a));
        assert(s2.to_multiset().contains(a));
        let j = choose|j: int| 0 <= j < s2.len() && s2[j] == a;
        let t2 = s2.remove(j);
        assert(t2.to_multiset() == s2.to_multiset().remove(a));
        assert(t1.to_multiset() =~= t2.to_multiset());
        lemma_map_keeps_multiset(t1, t2, g);
        let m1 = s1.map_values(g);
        let m2 = s2.map_values(g);
        assert(m1 =~= t1.map_values(g).push(g(a)));
        assert(t2.map_values(g) =~= m2.remove(j));
        assert(m2[j] == g(a));
        assert(t2.map_values(g).to_multiset() == m2.to_multiset().remove(g(a)));
        assert(m2.to_multiset().contains(g(a)));
        assert(m1.to_multiset() =~= m2.to_multiset());
    }
}

/// The entry ids and scores of hits.
pub open spec fn hit_ids(hits: Seq<SearchHit>) -> Seq<(&'static str, nat)> {
    hits.map_values(|h: SearchHit| (h.entry.id, h.score as nat))
}

/// The entry ids and scores of ranks over the catalog `c`.
pub open spec fn rank_ids(c: Seq<EntryModel>, ranks: Seq<(nat, int)>) -> Seq<(&'static str, nat)> {
    ranks.map_values(|p: (nat, int)| (c[p.1].id, p.0))
}

/// Both languages answer a query with the same hits, counted by entry id
/// and score; only the texts and the order among equal scores can differ.
pub proof fn law_search_hits_same_in_both_locales(
    c: Seq<EntryModel>,
    q: Seq<char>,
    fr: Seq<SearchHit>,
    en: Seq<SearchHit>,
)
    requires
        hits_are(fr, search_spec(c, q, Locale::Fr), c, Locale::Fr),
        hits_are(en, search_spec(c, q, Locale::En), c, Locale::En),
    ensures
        hit_ids(fr).to_multiset() == hit_ids(en).to_multiset(),
{
    let sf = search_spec(c, q, Locale::Fr);
    let se = search_spec(c, q, Locale::En);
    law_search_same_in_both_locales(c, q);
    lemma_map_keeps_multiset(sf, se, |p: (nat, int)| (c[p.1].id, p.0));
    assert(hit_ids(fr) =~= rank_ids(c, sf));
    assert(hit_ids(en) =~= rank_ids(c, se));
}

proof fn lemma_max_score_at_least(terms: Seq<&'static str>, q: Seq<char>, t: int)
    requires
        0 <= t < terms.len(),
    ensures
        max_score(terms, q) >= term_score(terms[t]@, q),
    decreases terms.len(),
{
    if t < terms.len() - 1 {
        lemma_max_score_at_least(terms.drop_last(), q, t);
        assert(terms.drop_last()[t] == terms[t]);
    }
}

/// A search lists an entry, with a score of at least 30, when every word of
/// the query occurs in some searchable term of the entry (both taken in
/// their normalized form); at least 60 when the whole query occurs in the
/// term, and 100 when the term is the query.
pub proof fn law_search_finds_entries_holding_every_word(
    c: Seq<EntryModel>,
    q: Seq<char>,
    locale: Locale,
    i: int,
    t: int,
)
    requires
        q.len() > 0,
        0 <= i < c.len(),
        0 <= t < search_terms_spec(c[i]).len(),
        forall|w: int|
            0 <= w < tokens(q).len() ==> contains(
                normalize_spec(search_terms_spec(c[i])[t]@),
                #[trigger] tokens(q)[w],
            ),
    ensures
        exists|k: int|
            0 <= k < search_spec(c, q, locale).len() && (#[trigger] search_spec(c, q, locale)[k]).1 == i
                && search_spec(c, q, locale)[k].0 >= 30
                && (contains(normalize_spec(search_terms_spec(c[i])[t]@), q) ==> search_spec(c, q, locale)[k].0
                >= 60) && (normalize_spec(search_terms_spec(c[i])[t]@) == q ==> search_spec(c, q, locale)[k].0
                == 100),
{
    let terms = search_terms_spec(c[i]);
    lemma_max_score_at_least(terms, q, t);
    let m = max_score(terms, q);
    lemma_max_score_at_most(terms, q);
    assert(score_spec(c[i], q) == Some(m));
    lemma_search_members(c, q, locale, (m, i));
    let r = search_spec(c, q, locale);
    let k = choose|k: int| 0 <= k < r.len() && r[k] == (m, i);
    assert(r[k].1 == i);
}

proof fn lemma_max_score_at_most(terms: Seq<&'static str>, q: Seq<char>)
    ensures
        max_score(terms, q) <= 100,
    decreases terms.len(),
{
    if terms.len() > 0 {
        lemma_max_score_at_most(terms.drop_last(), q);
    }
}

/// The empty query answers every entry, each with score 1.
pub proof fn law_empty_query_lists_everything(c: Seq<EntryModel>, locale: Locale)
    ensures
        search_spec(c, Seq::empty(), locale).len() == c.len(),
        forall|k: int|
            0 <= k < search_spec(c, Seq::empty(), locale).len() ==> (#[trigger] search_spec(
                c,
                Seq::empty(),
                locale,
            )[k]).0 == 1,
{
    let q = Seq::<char>::empty();
    let sc = query_scores(c, q);
    lemma_ranked(c, sc, locale, c.len() as int);
    let r = search_spec(c, q, locale);
    // each entry gives one hit and no hit repeats an entry
    assert forall|i: int| 0 <= i < c.len() implies #[trigger] lists_entry(r, i) by {
        assert(sc[i] is Some);
    }
    lemma_distinct_cover(r, c.len() as int);
}

/// A sequence of hits whose entries are distinct and lie in `0..n`, and
/// that names each of them, has length `n`.
proof fn lemma_distinct_cover(r: Seq<(nat, int)>, n: int)
    requires
        0 <= n,
        entries_distinct(r),
        forall|k: int| 0 <= k < r.len() ==> 0 <= (#[trigger] r[k]).1 < n,
        forall|i: int| 0 <= i < n ==> #[trigger] lists_entry(r, i),
    ensures
        r.len() == n,
{
    let idx = r.map_values(|h: (nat, int)| h.1);
    let s = idx.to_set();
    assert(idx.no_duplicates()) by {
        assert forall|i: int, j: int| 0 <= i < idx.len() && 0 <= j < idx.len() && i != j implies idx[i]
            != idx[j] by {
            if i < j {
                assert(r[i].1 != r[j].1);
            } else {
                assert(r[j].1 != r[i].1);
            }
        }
    }
    idx.unique_seq_to_set();
    assert(s =~= Set::new(|i: int| 0 <= i < n)) by {
        assert forall|i: int| s.contains(i) implies 0 <= i < n by {
            let k = choose|k: int| 0 <= k < idx.len() && idx[k] == i;
            assert(r[k].1 == i);
        }
        assert forall|i: int| 0 <= i < n implies s.contains(i) by {
            assert(lists_entry(r, i));
            let k = choose|k: int| 0 <= k < r.len() && r[k].1 == i;
            assert(idx[k] == i);
        }
    }
    vstd::set_lib::lemma_int_range(0, n);
    assert(Set::new(|i: int| 0 <= i < n) =~= vstd::set_lib::set_int_range(0, n));
}

/// Inserts the hit of entry `index` into a ranked list whose entries all
/// come earlier in the catalog.
fn insert_ranked(
    c: &Vec<ReferenceEntry>,
    locale: Locale,
    hits: &mut Vec<SearchHit>,
    Ghost(ranks): Ghost<Seq<(nat, int)>>,
    score: usize,
    index: usize,
)
    requires
        index < c.len(),
        hits_are(old(hits)@, ranks, models(c@), locale),
        forall|k: int| 0 <= k < ranks.len() ==> 0 <= #[trigger] ranks[k].1 < index,
    ensures
        hits_are(
            final(hits)@,
            insert_hit(models(c@), locale, ranks, (score as nat, index as int)),
            models(c@),
            locale,
        ),
{
    let ghost mc = models(c@);
    let ghost h = (score as nat, index as int);
    let title = match locale {
        Locale::Fr => c[index].fr.title,
        Locale::En => c[index].en.title,
    };
    assert(mc[index as int] == model_of(c@[index as int]));
    let mut pos: usize = 0;
    while pos < hits.len()
        invariant
            pos <= hits.len(),
            index < c.len(),
            mc == models(c@),
            h == (score as nat, index as int),
            title == text_of(mc[index as int], locale).title,
            hits_are(hits@, ranks, mc, locale),
            hits@ == old(hits)@,
            forall|k: int| 0 <= k < ranks.len() ==> 0 <= #[trigger] ranks[k].1 < index,
            forall|k: int| 0 <= k < pos ==> !hit_before(mc, locale, h, #[trigger] ranks[k]),
        ensures
            pos <= hits.len(),
            forall|k: int| 0 <= k < pos ==> !hit_before(mc, locale, h, #[trigger] ranks[k]),
            pos < hits.len() ==> hit_before(mc, locale, h, ranks[pos as int]),
        decreases hits.len() - pos,
    {
        let other_score = hits[pos].score;
        let other_title = hits[pos].entry.title;
        assert(hits@[pos as int].score == ranks[pos as int].0);
        assert(ranks[pos as int].1 < index);
        let before = score > other_score || (score == other_score && text_lt_exec(
            title,
            other_title,
        ));
        if before {
            break;
        }
        pos += 1;
    }
    proof {
        lemma_insert_at(mc, locale, ranks, h, pos as int);
    }
    let entry = to_view(&c[index], locale);
    let ghost old_hits = hits@;
    hits.insert(pos, SearchHit { score, entry });
    let ghost nr = insert_hit(mc, locale, ranks, h);
    assert(nr.len() == hits@.len());
    assert forall|k: int| 0 <= k < hits@.len() implies {
        &&& #[trigger] hits@[k].score == nr[k].0
        &&& 0 <= nr[k].1 < mc.len()
        &&& is_view_of(hits@[k].entry, mc[nr[k].1], locale)
    } by {
        if k < pos {
            assert(hits@[k] == old_hits[k]);
            assert(nr[k] == ranks[k]);
            assert(old_hits[k].score == ranks[k].0);
        } else if k == pos {
            assert(nr[k] == h);
        } else {
            assert(hits@[k] == old_hits[k - 1]);
            assert(nr[k] == ranks[k - 1]);
            assert(old_hits[k - 1].score == ranks[k - 1].0);
        }
    }
}

/// `scores` read as natural numbers.
pub open spec fn nat_scores(scores: Seq<Option<usize>>) -> Seq<Option<nat>> {
    scores.map_values(
        |o: Option<usize>|
            match o {
                Some(x) => Some(x as nat),
                None => None,
            },
    )
}

/// The entries of `c` that have a score in `scores` (one per entry), as
/// shown in `locale`: best score first, equal scores by title, then in
/// catalog order.
pub fn rank_entries(c: &Vec<ReferenceEntry>, scores: &Vec<Option<usize>>, locale: Locale) -> (r:
    Vec<SearchHit>)
    requires
        scores.len() == c.len(),
    ensures
        hits_are(
            r@,
            ranked_by(models(c@), nat_scores(scores@), locale, c.len() as int),
            models(c@),
            locale,
        ),
{
    let ghost mc = models(c@);
    let ghost sc = nat_scores(scores@);
    let mut hits: Vec<SearchHit> = Vec::new();
    let mut i: usize = 0;
    while i < c.len()
        invariant
            i <= c.len(),
            scores.len() == c.len(),
            mc == models(c@),
            sc == nat_scores(scores@),
            hits_are(hits@, ranked_by(mc, sc, locale, i as int), mc, locale),
        decreases c.len() - i,
    {
        proof {
            lemma_ranked(mc, sc, locale, i as int);
        }
        match scores[i] {
            Some(s) => {
                insert_ranked(c, locale, &mut hits, Ghost(ranked_by(mc, sc, locale, i as int)), s, i);
            },
            None => {},
        }
        i += 1;
    }
    hits
}

/// Ranked search over catalog `c` for a query that is already normalized.
fn search_chars(c: &Vec<ReferenceEntry>, q: &Vec<char>, locale: Locale) -> (r: Vec<SearchHit>)
    ensures
        hits_are(r@, search_spec(models(c@), q@, locale), models(c@), locale),
{
    let ghost mc = models(c@);
    let mut scores: Vec<Option<usize>> = Vec::new();
    let mut i: usize = 0;
    while i < c.len()
        invariant
            i <= c.len(),
            mc == models(c@),
            scores.len() == i,
            forall|k: int| 0 <= k < i ==> #[trigger] nat_scores(scores@)[k] == score_spec(mc[k], q@),
        decreases c.len() - i,
    {
        assert(mc[i as int] == model_of(c@[i as int]));
        let s = score_entry_chars(&c[i], q);
        let ghost before = scores@;
        scores.push(s);
        assert(nat_scores(scores@)[i as int] == score_spec(mc[i as int], q@));
        assert forall|k: int| 0 <= k < i + 1 implies #[trigger] nat_scores(scores@)[k] == score_spec(
            mc[k],
            q@,
        ) by {
            if k < i {
                assert(scores@[k] == before[k]);
                assert(nat_scores(before)[k] == score_spec(mc[k], q@));
            }
        }
        i += 1;
    }
    assert(nat_scores(scores@) =~= query_scores(mc, q@));
    rank_entries(c, &scores, locale)
}

/// The entries of catalog `c` that answer `query`, with their scores, best
/// first; equal scores by title in `locale`, then in catalog order.
pub fn search_in(c: &Vec<ReferenceEntry>, query: &str, locale: Locale) -> (r: Vec<SearchHit>)
    ensures
        hits_are(r@, search_spec(models(c@), normalize_spec(query@), locale), models(c@), locale),
{
    let q = normalize_chars(&chars_of(query));
    search_chars(c, &q, locale)
}

/// The entries of the reference that answer `query`, with their scores,
/// best first; equal scores by title in `locale`, then in catalog order.
pub fn search(query: &str, locale: Locale) -> (r: Vec<SearchHit>)
    ensures
        hits_are(r@, search_spec(catalog_spec(), normalize_spec(query@), locale), catalog_spec(), locale),
{
    let c = catalog();
    search_in(&c, query, locale)
}

/// Whether some entry of catalog `c` shown on `panel` answers the normalized
/// query `q`; never for an empty query.
pub open spec fn panel_match_spec(c: Seq<EntryModel>, panel: Seq<char>, q: Seq<char>) -> bool {
    &&& q.len() > 0
    &&& exists|i: int|
        0 <= i < c.len() && c[i].panel@ == panel && (#[trigger] score_spec(c[i], q)) is Some
}

/// Whether an entry of catalog `c` on `panel` answers `query`.
pub fn panel_matches_query_in(c: &Vec<ReferenceEntry>, panel: &str, query: &str) -> (r: bool)
    ensures
        r == panel_match_spec(models(c@), panel@, normalize_spec(query@)),
{
    let ghost mc = models(c@);
    let q = normalize_chars(&chars_of(query));
    if q.len() == 0 {
        return false;
    }
    let p = chars_of(panel);
    let mut i: usize = 0;
    while i < c.len()
        invariant
            i <= c.len(),
            mc == models(c@),
            p@ == panel@,
            q@ == normalize_spec(query@),
            q@.len() > 0,
            forall|k: int|
                0 <= k < i ==> !(mc[k].panel@ == panel@ && (#[trigger] score_spec(mc[k], q@)) is Some),
        decreases c.len() - i,
    {
        assert(mc[i as int] == model_of(c@[i as int]));
        if chars_eq_str(&p, c[i].panel) {
            if score_entry_chars(&c[i], &q).is_some() {
                assert(score_spec(mc[i as int], q@) is Some);
                return true;
            }
        }
        i += 1;
    }
    false
}

/// Whether an entry of the reference on `panel` answers `query`.
pub fn panel_matches_query(panel: &str, query: &str) -> (r: bool)
    ensures
        r == panel_match_spec(catalog_spec(), panel@, normalize_spec(query@)),
{
    let c = catalog();
    panel_matches_query_in(&c, panel, query)
}

/// Every entry of the reference, as shown in `locale`, in catalog order.
pub fn catalog_views(locale: Locale) -> (r: Vec<ReferenceEntryView>)
    ensures
        r.len() == catalog_spec().len(),
        forall|i: int| 0 <= i < r.len() ==> is_view_of(#[trigger] r@[i], catalog_spec()[i], locale),
{
    let c = catalog();
    let mut out: Vec<ReferenceEntryView> = Vec::new();
    let mut i: usize = 0;
    while i < c.len()
        invariant
            i <= c.len(),
            models(c@) == catalog_spec(),
            out.len() == i,
            forall|k: int| 0 <= k < i ==> is_view_of(#[trigger] out@[k], catalog_spec()[k], locale),
        decreases c.len() - i,
    {
        assert(models(c@)[i as int] == model_of(c@[i as int]));
        out.push(to_view(&c[i], locale));
        i += 1;
    }
    out
}

} // verus!
