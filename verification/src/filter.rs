//! The rules that decide whether a message earns a reaction.

use crate::number::{parse_i32, parsed_i32};
use crate::price::{extract_price, pattern_of, price_of};
use crate::text::{
    chars_of, contains, find_with_prefix, first_with_prefix, lines, lowercase, lowercase_chars,
    occurs_at, occurs_in, optional_str, optional_text, remove_char, same_chars, split_lines,
    string_of, strip_leading, views, without_char, without_leading,
};
use vstd::prelude::*;

verus! {

/// The least amount reacted to when none is configured.
pub const DEFAULT_MIN_AMOUNT: i32 = 38000;

/// What a line that names the bank begins with.
pub const BANK_LABEL: &'static str = "Банк: ";

/// What a line that gives the payment requisite begins with.
pub const REQUISITE_LABEL: &'static str = "Реквизит: ";

/// The filters of one run: a filter that is absent never rejects.
pub struct FilterSettings {
    pub bank_filter: Option<String>,
    pub requisite_filter: Option<String>,
    pub min_amount: i32,
}

/// The filters as plain values.
pub struct FilterView {
    pub bank_filter: Option<Seq<char>>,
    pub requisite_filter: Option<Seq<char>>,
    pub min_amount: int,
}

impl View for FilterSettings {
    type V = FilterView;

    open spec fn view(&self) -> FilterView {
        FilterView {
            bank_filter: optional_text(self.bank_filter),
            requisite_filter: optional_text(self.requisite_filter),
            min_amount: self.min_amount as int,
        }
    }
}

/// The letter that stands for the designated bank, in Latin or Cyrillic.
pub open spec fn is_te(c: char) -> bool {
    c == 't' || c == 'т'
}

/// A filter that asks for the designated bank: once lowercased it is the
/// single letter, in either script.
pub open spec fn is_lookalike_filter(filter: Seq<char>) -> bool {
    lowercase(filter).len() == 1 && is_te(lowercase(filter)[0])
}

/// The spellings of the designated bank's name: the letter in either script,
/// then a hyphen, a space or nothing, then the word in either script.
pub open spec fn bank_variants() -> Seq<Seq<char>> {
    seq![
        "t-bank"@,
        "т-bank"@,
        "t bank"@,
        "т bank"@,
        "tbank"@,
        "тbank"@,
        "t-банк"@,
        "т-банк"@,
        "t банк"@,
        "т банк"@,
        "tбанк"@,
        "тбанк"@,
    ]
}

/// A lowercased bank name of the designated bank: it holds one of the
/// spellings.
pub open spec fn is_designated_bank(name: Seq<char>) -> bool {
    exists|i: int| 0 <= i < bank_variants().len() && occurs_in(name, #[trigger] bank_variants()[i])
}

/// `s` with each Cyrillic `т` replaced by the Latin `t`.
pub open spec fn with_latin_te(s: Seq<char>) -> Seq<char> {
    Seq::new(
        s.len(),
        |i: int|
            if s[i] == 'т' {
                't'
            } else {
                s[i]
            },
    )
}

/// A filter as it is compared: lowercased, and the letter of the designated
/// bank always in Latin.
pub open spec fn normalized_filter(filter: Seq<char>) -> Seq<char> {
    if is_lookalike_filter(filter) {
        seq!['t']
    } else {
        lowercase(filter)
    }
}

/// `s` with `т` written as `t`, and hyphens and spaces dropped.
pub open spec fn squashed(s: Seq<char>) -> Seq<char> {
    without_char(without_char(with_latin_te(s), '-'), ' ')
}

/// A bank name as it is compared: lowercased, `т` written as `t`, hyphens
/// and spaces dropped.
pub open spec fn normalized_bank_name(name: Seq<char>) -> Seq<char> {
    squashed(lowercase(name))
}

/// The bank rule on a bank name and a filter that are both lowercased: a
/// filter that is the letter of the designated bank asks for a name of
/// that bank, any other filter for a name that holds it once the name is
/// squashed.
pub open spec fn bank_rule(name: Seq<char>, filter: Seq<char>) -> bool {
    if filter.len() == 1 && is_te(filter[0]) {
        is_designated_bank(name)
    } else {
        occurs_in(squashed(name), filter)
    }
}

/// The requisite rule on what was read from a message, requisite and
/// filter being as they are compared: under the filter `+` (`plus`) every
/// message of the designated bank passes; any other message needs a
/// requisite that holds the filter.
pub open spec fn requisite_rule(
    designated: bool,
    plus: bool,
    requisite: Option<Seq<char>>,
    filter: Seq<char>,
) -> bool {
    ||| plus && designated
    ||| requisite matches Some(requisite) && occurs_in(requisite, filter)
}

/// The bank name as the message writes it: what follows the bank label on
/// the first line of `text` that begins with it, every leading repetition
/// of the label removed.
pub open spec fn written_bank_name(text: Seq<char>) -> Option<Seq<char>> {
    match first_with_prefix(lines(text), BANK_LABEL@) {
        Some(line) => Some(without_leading(line, BANK_LABEL@)),
        None => None,
    }
}

/// The bank name of the message, lowercased.
pub open spec fn bank_name_in(text: Seq<char>) -> Option<Seq<char>> {
    match written_bank_name(text) {
        Some(name) => Some(lowercase(name)),
        None => None,
    }
}

/// The requisite on the first line of `text` that begins with the requisite
/// label, every leading repetition of the label removed.
pub open spec fn requisite_in(text: Seq<char>) -> Option<Seq<char>> {
    match first_with_prefix(lines(text), REQUISITE_LABEL@) {
        Some(line) => Some(without_leading(line, REQUISITE_LABEL@)),
        None => None,
    }
}

/// The message names the designated bank on its bank line.
pub open spec fn names_designated_bank(text: Seq<char>) -> bool {
    bank_name_in(text) matches Some(name) && is_designated_bank(name)
}

/// The amount rule: a positive minimum needs an amount that reaches it.
pub open spec fn amount_passes(min_amount: int, price: Option<i32>) -> bool {
    min_amount > 0 ==> (price matches Some(p) && p >= min_amount)
}

/// The bank rule: the message has a bank line, and its name is of the
/// designated bank where the filter asks for that bank, and otherwise holds
/// the normalized filter once normalized itself.
pub open spec fn bank_passes(text: Seq<char>, filter: Seq<char>) -> bool {
    match bank_name_in(text) {
        Some(name) => bank_rule(name, lowercase(filter)),
        None => false,
    }
}

/// The requisite of the message as it is compared with `filter`: as
/// written for the filter `+`, which has no case, and lowercased for any
/// other filter.
pub open spec fn compared_requisite(text: Seq<char>, filter: Seq<char>) -> Option<Seq<char>> {
    match requisite_in(text) {
        Some(requisite) => if filter == seq!['+'] {
            Some(requisite)
        } else {
            Some(lowercase(requisite))
        },
        None => None,
    }
}

/// A requisite filter as it is compared: `+` as it is, any other filter
/// lowercased.
pub open spec fn compared_filter(filter: Seq<char>) -> Seq<char> {
    if filter == seq!['+'] {
        filter
    } else {
        lowercase(filter)
    }
}

/// The requisite rule: the filter `+` passes every message of the designated
/// bank; any other message needs a requisite line that holds the filter,
/// whatever the case of the letters.
pub open spec fn requisite_passes(text: Seq<char>, filter: Seq<char>) -> bool {
    requisite_rule(
        names_designated_bank(text),
        filter == seq!['+'],
        compared_requisite(text, filter),
        compared_filter(filter),
    )
}

/// Whether a message with body `text` and amount `price` earns a reaction.
pub open spec fn reacts(settings: FilterView, text: Seq<char>, price: Option<i32>) -> bool {
    &&& !(price is None && settings.bank_filter is None && settings.requisite_filter is None)
    &&& amount_passes(settings.min_amount, price)
    &&& settings.bank_filter matches Some(filter) ==> bank_passes(text, filter)
    &&& settings.requisite_filter matches Some(filter) ==> requisite_passes(text, filter)
}

/// The minimum configured by the text of a setting: the integer it writes,
/// and the default where it is absent or writes none.
pub open spec fn configured_minimum(setting: Option<Seq<char>>) -> int {
    match setting {
        Some(s) => match parsed_i32(s) {
            Some(v) => v as int,
            None => DEFAULT_MIN_AMOUNT as int,
        },
        None => DEFAULT_MIN_AMOUNT as int,
    }
}

/// A message without an amount never earns a reaction while no filter is set.
pub proof fn lemma_no_price_no_filters_rejects(settings: FilterView, text: Seq<char>)
    requires
        settings.bank_filter is None,
        settings.requisite_filter is None,
    ensures
        !reacts(settings, text, None),
{
}

/// While the minimum is positive, an amount below it is rejected whatever the
/// other filters are.
pub proof fn lemma_below_minimum_rejects(settings: FilterView, text: Seq<char>, p: i32)
    requires
        settings.min_amount > 0,
        p < settings.min_amount,
    ensures
        !reacts(settings, text, Some(p)),
{
}

/// With no other filter set, an amount that reaches the minimum is accepted.
pub proof fn lemma_amount_alone_accepts(settings: FilterView, text: Seq<char>, p: i32)
    requires
        settings.bank_filter is None,
        settings.requisite_filter is None,
        p >= settings.min_amount,
    ensures
        reacts(settings, text, Some(p)),
{
}

/// Any filter but the letter of the designated bank passes exactly the
/// messages whose normalized bank name holds the normalized filter.
pub proof fn lemma_generic_filter_compares_normalized(text: Seq<char>, filter: Seq<char>)
    requires
        !is_lookalike_filter(filter),
    ensures
        bank_passes(text, filter) == (written_bank_name(text) matches Some(name) && occurs_in(
            normalized_bank_name(name),
            normalized_filter(filter),
        )),
{
}

/// A filter that asks for the designated bank passes the messages whose
/// bank name, lowercased, holds one of the spellings, and rejects all
/// others: those without a bank line, and those that name another bank.
pub proof fn lemma_lookalike_filter_selects_designated_bank(text: Seq<char>, filter: Seq<char>)
    requires
        is_lookalike_filter(filter),
    ensures
        bank_passes(text, filter) <==> (written_bank_name(text) matches Some(name)
            && is_designated_bank(lowercase(name))),
        forall|i: int|
            #![trigger bank_variants()[i]]
            0 <= i < bank_variants().len() && written_bank_name(text) is Some && occurs_in(
                lowercase(written_bank_name(text)->0),
                bank_variants()[i],
            ) ==> bank_passes(text, filter),
        written_bank_name(text) is None ==> !bank_passes(text, filter),
{
}

/// With such a filter and an amount that passes the amount rule, a
/// message is accepted exactly when it names the designated bank and passes
/// the requisite filter, if one is set.
pub proof fn lemma_lookalike_filter_decides(
    settings: FilterView,
    text: Seq<char>,
    price: Option<i32>,
)
    requires
        settings.bank_filter is Some,
        is_lookalike_filter(settings.bank_filter->0),
        amount_passes(settings.min_amount, price),
    ensures
        reacts(settings, text, price) <==> (names_designated_bank(text) && (
        settings.requisite_filter matches Some(filter) ==> requisite_passes(text, filter))),
        settings.requisite_filter is None ==> reacts(settings, text, price)
            == names_designated_bank(text),
        !names_designated_bank(text) ==> !reacts(settings, text, price),
{
}

/// A one-character pattern occurs in a text exactly where the text holds
/// that character.
proof fn lemma_occurs_single(text: Seq<char>, c: char)
    ensures
        occurs_in(text, seq![c]) == text.contains(c),
{
    if text.contains(c) {
        let i = choose|i: int| 0 <= i < text.len() && text[i] == c;
        assert(text.subrange(i, i + 1) =~= seq![c]);
        assert(occurs_at(text, seq![c], i));
    }
    if occurs_in(text, seq![c]) {
        let i = choose|i: int| occurs_at(text, seq![c], i);
        assert(text.subrange(i, i + 1)[0] == c);
        assert(text[i] == c);
    }
}

/// Under the filter `+` a message of the designated bank always passes the
/// requisite rule; any other message passes exactly when it has a requisite
/// line with a `+` in it.
pub proof fn lemma_plus_requisite(text: Seq<char>)
    ensures
        names_designated_bank(text) ==> requisite_passes(text, seq!['+']),
        !names_designated_bank(text) ==> (requisite_passes(text, seq!['+']) <==> (requisite_in(
            text,
        ) matches Some(requisite) && requisite.contains('+'))),
{
    if requisite_in(text) is Some {
        lemma_occurs_single(requisite_in(text)->0, '+');
    }
}

/// With the filter `+`, a bank filter that is absent or passes, and an
/// amount that passes the amount rule, a message of the designated bank is
/// accepted whatever its requisite line, and any other message exactly when
/// its requisite line holds a `+`.
pub proof fn lemma_plus_requisite_decides(
    settings: FilterView,
    text: Seq<char>,
    price: Option<i32>,
)
    requires
        settings.requisite_filter == Some(seq!['+']),
        settings.bank_filter matches Some(filter) ==> bank_passes(text, filter),
        amount_passes(settings.min_amount, price),
    ensures
        names_designated_bank(text) ==> reacts(settings, text, price),
        !names_designated_bank(text) ==> (reacts(settings, text, price) <==> (requisite_in(
            text,
        ) matches Some(requisite) && requisite.contains('+'))),
{
    lemma_plus_requisite(text);
}

/// Any requisite filter but `+` passes exactly the messages whose
/// requisite holds it once both are lowercased.
pub proof fn lemma_requisite_ignores_case(text: Seq<char>, filter: Seq<char>)
    requires
        filter != seq!['+'],
    ensures
        requisite_passes(text, filter) <==> (requisite_in(text) matches Some(requisite)
            && occurs_in(lowercase(requisite), lowercase(filter))),
{
}

/// Whether `name` is a name of the designated bank.
pub fn is_designated_bank_name(name: &Vec<char>) -> (r: bool)
    ensures
        r == is_designated_bank(name@),
{
    let table: Vec<Vec<char>> = vec![
        chars_of("t-bank"),
        chars_of("т-bank"),
        chars_of("t bank"),
        chars_of("т bank"),
        chars_of("tbank"),
        chars_of("тbank"),
        chars_of("t-банк"),
        chars_of("т-банк"),
        chars_of("t банк"),
        chars_of("т банк"),
        chars_of("tбанк"),
        chars_of("тбанк"),
    ];
    assert(views(table@) =~= bank_variants());
    let mut i: usize = 0;
    while i < table.len()
        invariant
            i <= table.len(),
            views(table@) == bank_variants(),
            forall|j: int| 0 <= j < i ==> !occurs_in(name@, #[trigger] bank_variants()[j]),
        decreases table.len() - i,
    {
        assert(views(table@)[i as int] == table@[i as int]@);
        if contains(name, &table[i]) {
            return true;
        }
        i += 1;
    }
    false
}

/// `chars` with each Cyrillic `т` replaced by the Latin `t`.
fn latin_te(chars: &Vec<char>) -> (r: Vec<char>)
    ensures
        r@ == with_latin_te(chars@),
{
    let mut out: Vec<char> = Vec::new();
    let mut i: usize = 0;
    while i < chars.len()
        invariant
            i <= chars.len(),
            out@ == with_latin_te(chars@).take(i as int),
        decreases chars.len() - i,
    {
        let c = chars[i];
        out.push(if c == 'т' { 't' } else { c });
        assert(out@ =~= with_latin_te(chars@).take(i + 1));
        i += 1;
    }
    assert(with_latin_te(chars@).take(chars@.len() as int) =~= with_latin_te(chars@));
    out
}

/// The filter as it is compared with bank names.
fn normalize_filter_chars(filter: &Vec<char>) -> (r: Vec<char>)
    ensures
        r@ == normalized_filter(filter@),
{
    let folded = lowercase_chars(filter);
    if folded.len() == 1 && (folded[0] == 't' || folded[0] == 'т') {
        let r: Vec<char> = vec!['t'];
        assert(r@ =~= seq!['t']);
        r
    } else {
        folded
    }
}

/// `chars` with `т` written as `t`, and hyphens and spaces dropped.
fn squash(chars: &Vec<char>) -> (r: Vec<char>)
    ensures
        r@ == squashed(chars@),
{
    let latin = latin_te(chars);
    let joined = remove_char(&latin, '-');
    remove_char(&joined, ' ')
}

/// Whether a lowercased bank name passes a lowercased filter.
pub fn bank_matches(name: &Vec<char>, filter: &Vec<char>) -> (r: bool)
    ensures
        r == bank_rule(name@, filter@),
{
    if filter.len() == 1 && (filter[0] == 't' || filter[0] == 'т') {
        is_designated_bank_name(name)
    } else {
        contains(&squash(name), filter)
    }
}

/// Whether what was read from a message passes the requisite filter,
/// requisite and filter being as they are compared; `plus` says that the
/// filter is `+`.
pub fn requisite_matches(
    designated: bool,
    plus: bool,
    requisite: Option<&Vec<char>>,
    filter: &Vec<char>,
) -> (r: bool)
    ensures
        r == requisite_rule(
            designated,
            plus,
            match requisite {
                Some(requisite) => Some(requisite@),
                None => None,
            },
            filter@,
        ),
{
    if plus && designated {
        return true;
    }
    match requisite {
        Some(requisite) => contains(requisite, filter),
        None => false,
    }
}

/// The first of `lines` that begins with `label`, without the label.
fn labelled_value(lines: &Vec<Vec<char>>, label: &Vec<char>) -> (r: Option<Vec<char>>)
    ensures
        match r {
            Some(value) => first_with_prefix(views(lines@), label@) matches Some(line)
                && value@ == without_leading(line, label@),
            None => first_with_prefix(views(lines@), label@) is None,
        },
{
    match find_with_prefix(lines, label) {
        Some(i) => Some(strip_leading(&lines[i], label)),
        None => None,
    }
}

/// The lowercased bank name of a message, given its lines.
fn bank_name_of(lines: &Vec<Vec<char>>) -> (r: Option<Vec<char>>)
    ensures
        match r {
            Some(name) => first_with_prefix(views(lines@), BANK_LABEL@) matches Some(line)
                && name@ == lowercase(without_leading(line, BANK_LABEL@)),
            None => first_with_prefix(views(lines@), BANK_LABEL@) is None,
        },
{
    let label = chars_of(BANK_LABEL);
    match labelled_value(lines, &label) {
        Some(value) => Some(lowercase_chars(&value)),
        None => None,
    }
}

/// Whether the lowercased bank name read from a message is of the
/// designated bank.
fn designated(bank_name: &Option<Vec<char>>) -> (r: bool)
    ensures
        r == (bank_name matches Some(name) && is_designated_bank(name@)),
{
    match bank_name {
        Some(name) => is_designated_bank_name(name),
        None => false,
    }
}

impl FilterSettings {
    /// The settings that the values of the three configuration variables
    /// give: the filters as they are, and the minimum read from its text.
    pub fn from_env(
        bank_filter: Option<String>,
        requisite_filter: Option<String>,
        min_amount: Option<&str>,
    ) -> (r: Self)
        ensures
            r.bank_filter == bank_filter,
            r.requisite_filter == requisite_filter,
            r.min_amount == configured_minimum(optional_str(min_amount)),
    {
        let minimum: i32 = match min_amount {
            Some(s) => match parse_i32(&chars_of(s)) {
                Some(v) => v,
                None => DEFAULT_MIN_AMOUNT,
            },
            None => DEFAULT_MIN_AMOUNT,
        };
        FilterSettings { bank_filter, requisite_filter, min_amount: minimum }
    }

    /// The filter as it is compared with bank names.
    pub fn normalize_filter(&self, filter: &str) -> (r: String)
        ensures
            r@ == normalized_filter(filter@),
    {
        string_of(&normalize_filter_chars(&chars_of(filter)))
    }

    /// The bank name as it is compared with filters.
    pub fn normalize_bank_name(&self, bank_name: &str) -> (r: String)
        ensures
            r@ == normalized_bank_name(bank_name@),
    {
        string_of(&squash(&lowercase_chars(&chars_of(bank_name))))
    }

    /// Whether the message `text`, in which the amount `price` was found,
    /// earns a reaction.
    pub fn decide(&self, text: &str, price: Option<i32>) -> (r: bool)
        ensures
            r == reacts(self@, text@, price),
    {
        if price.is_none() && self.bank_filter.is_none() && self.requisite_filter.is_none() {
            return false;
        }
        let amount_ok = if self.min_amount > 0 {
            match price {
                Some(p) => p >= self.min_amount,
                None => false,
            }
        } else {
            true
        };
        if !amount_ok {
            return false;
        }
        let lines = split_lines(&chars_of(text));
        let bank_name = bank_name_of(&lines);
        let bank_ok = match &self.bank_filter {
            Some(filter) => match &bank_name {
                Some(name) => bank_matches(name, &lowercase_chars(&chars_of(filter.as_str()))),
                None => false,
            },
            None => true,
        };
        if !bank_ok {
            return false;
        }
        match &self.requisite_filter {
            Some(filter) => {
                let filter = chars_of(filter.as_str());
                let written = labelled_value(&lines, &chars_of(REQUISITE_LABEL));
                let sign: Vec<char> = vec!['+'];
                assert(sign@ =~= seq!['+']);
                let plus = same_chars(&filter, &sign);
                if plus {
                    requisite_matches(designated(&bank_name), plus, written.as_ref(), &filter)
                } else {
                    let folded = match &written {
                        Some(requisite) => Some(lowercase_chars(requisite)),
                        None => None,
                    };
                    requisite_matches(
                        designated(&bank_name),
                        plus,
                        folded.as_ref(),
                        &lowercase_chars(&filter),
                    )
                }
            },
            None => true,
        }
    }

    /// Whether the message `text` earns a reaction, its amount being the one
    /// that `regex` finds in it.
    pub fn should_react(&self, text: &str, regex: &regex::Regex) -> (r: bool)
        ensures
            r == reacts(self@, text@, price_of(pattern_of(*regex), text@)),
    {
        let price = extract_price(text, regex);
        self.decide(text, price)
    }
}

} // verus!
