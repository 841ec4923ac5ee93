//! The error table: a code-ordered catalogue of documented error codes.
use vstd::prelude::*;
use crate::error::GrassError;
use crate::text::{chars_lt, str_less, str_eq, join2, lemma_chars_lt_irreflexive, lemma_chars_lt_total,
    lemma_chars_lt_transitive, lemma_chars_lt_asymmetric};

verus! {

/// How serious an error is.
#[derive(Debug, Clone, Copy, PartialEq, Eq, Structural, PartialOrd, Ord, Hash)]
pub enum GrassErrorSeverity {
    Info,
    Warning,
    Error,
    Critical,
}

/// The lower-case name that a severity renders to.
pub open spec fn severity_name(s: GrassErrorSeverity) -> Seq<char> {
    match s {
        GrassErrorSeverity::Info => "info"@,
        GrassErrorSeverity::Warning => "warning"@,
        GrassErrorSeverity::Error => "error"@,
        GrassErrorSeverity::Critical => "critical"@,
    }
}

impl GrassErrorSeverity {
    /// The lower-case name of the severity (`"info"`, `"warning"`, ...).
    pub fn as_str(&self) -> (r: &'static str)
        ensures
            r@ == severity_name(*self),
    {
        match self {
            GrassErrorSeverity::Info => "info",
            GrassErrorSeverity::Warning => "warning",
            GrassErrorSeverity::Error => "error",
            GrassErrorSeverity::Critical => "critical",
        }
    }
}

/// The abstract content of an error entry.
pub struct GrassErrorEntryView {
    pub code: Seq<char>,
    pub domain: Seq<char>,
    pub module: Seq<char>,
    pub severity: GrassErrorSeverity,
    pub message: Seq<char>,
    pub causes: Seq<Seq<char>>,
    pub remediation: Seq<Seq<char>>,
}

/// A documented error code with its causes and remediation steps.
#[derive(Debug)]
pub struct GrassErrorEntry {
    pub code: String,
    pub domain: String,
    pub module: String,
    pub severity: GrassErrorSeverity,
    pub message: String,
    pub causes: Vec<String>,
    pub remediation: Vec<String>,
}

/// The texts of a list of strings.
pub open spec fn texts(v: Seq<String>) -> Seq<Seq<char>> {
    v.map_values(|s: String| s@)
}

impl View for GrassErrorEntry {
    type V = GrassErrorEntryView;

    open spec fn view(&self) -> GrassErrorEntryView {
        GrassErrorEntryView {
            code: self.code@,
            domain: self.domain@,
            module: self.module@,
            severity: self.severity,
            message: self.message@,
            causes: texts(self.causes@),
            remediation: texts(self.remediation@),
        }
    }
}

/// A copy of a list of strings.
pub fn clone_strings(v: &Vec<String>) -> (r: Vec<String>)
    ensures
        texts(r@) == texts(v@),
{
    let mut r: Vec<String> = Vec::new();
    let mut i: usize = 0;
    while i < v.len()
        invariant
            i <= v.len(),
            r@.len() == i,
            forall|k: int| 0 <= k < i ==> r@[k]@ == v@[k]@,
        decreases v.len() - i,
    {
        r.push(v[i].clone());
        i = i + 1;
    }
    assert(texts(r@) =~= texts(v@));
    r
}

impl Clone for GrassErrorEntry {
    fn clone(&self) -> (r: Self)
        ensures
            r@ == self@,
    {
        GrassErrorEntry {
            code: self.code.clone(),
            domain: self.domain.clone(),
            module: self.module.clone(),
            severity: self.severity,
            message: self.message.clone(),
            causes: clone_strings(&self.causes),
            remediation: clone_strings(&self.remediation),
        }
    }
}

impl GrassErrorEntry {
    /// An entry with no causes and no remediation steps.
    pub fn new(
        code: &str,
        domain: &str,
        module: &str,
        severity: GrassErrorSeverity,
        message: &str,
    ) -> (r: Self)
        ensures
            r@ == (GrassErrorEntryView {
                code: code@,
                domain: domain@,
                module: module@,
                severity,
                message: message@,
                causes: Seq::empty(),
                remediation: Seq::empty(),
            }),
    {
        let r = GrassErrorEntry {
            code: code.to_owned(),
            domain: domain.to_owned(),
            module: module.to_owned(),
            severity,
            message: message.to_owned(),
            causes: Vec::new(),
            remediation: Vec::new(),
        };
        assert(texts(r.causes@) =~= Seq::empty());
        assert(texts(r.remediation@) =~= Seq::empty());
        r
    }

    /// The entry with `cause` appended to its causes.
    pub fn with_cause(self, cause: &str) -> (r: Self)
        ensures
            r@ == (GrassErrorEntryView { causes: self@.causes.push(cause@), ..self@ }),
    {
        let mut e = self;
        let ghost before = e.causes@;
        e.causes.push(cause.to_owned());
        assert(texts(e.causes@) =~= texts(before).push(cause@));
        e
    }

    /// The entry with `fix` appended to its remediation steps.
    pub fn with_remediation(self, fix: &str) -> (r: Self)
        ensures
            r@ == (GrassErrorEntryView { remediation: self@.remediation.push(fix@), ..self@ }),
    {
        let mut e = self;
        let ghost before = e.remediation@;
        e.remediation.push(fix.to_owned());
        assert(texts(e.remediation@) =~= texts(before).push(fix@));
        e
    }
}

/// Codes strictly ascending along the sequence.
pub open spec fn sorted_by_code(s: Seq<GrassErrorEntryView>) -> bool {
    forall|i: int, j: int| 0 <= i < j < s.len() ==> chars_lt(s[i].code, s[j].code)
}

/// The first entry of `s` with the given code.
pub open spec fn find_entry(s: Seq<GrassErrorEntryView>, code: Seq<char>) -> Option<
    GrassErrorEntryView,
>
    decreases s.len(),
{
    if s.len() == 0 {
        None
    } else if s[0].code == code {
        Some(s[0])
    } else {
        find_entry(s.drop_first(), code)
    }
}

/// `e` placed into the code-ordered sequence `s` before the first entry
/// whose code sorts after its own.
pub open spec fn insert_by_code(s: Seq<GrassErrorEntryView>, e: GrassErrorEntryView) -> Seq<
    GrassErrorEntryView,
>
    decreases s.len(),
{
    if s.len() == 0 {
        seq![e]
    } else if chars_lt(e.code, s[0].code) {
        seq![e] + s
    } else {
        seq![s[0]] + insert_by_code(s.drop_first(), e)
    }
}

/// The table after registering `e`, or `None` when its code is taken.
pub open spec fn register_entry(s: Seq<GrassErrorEntryView>, e: GrassErrorEntryView) -> Option<
    Seq<GrassErrorEntryView>,
> {
    if find_entry(s, e.code) is Some {
        None
    } else {
        Some(insert_by_code(s, e))
    }
}

/// Registers the entries of `o` one after another into `s`, stopping at the
/// first whose code is taken. Gives the resulting table and the code that
/// stopped it, if any.
pub open spec fn merge_entries(s: Seq<GrassErrorEntryView>, o: Seq<GrassErrorEntryView>) -> (
    Seq<GrassErrorEntryView>,
    Option<Seq<char>>,
)
    decreases o.len(),
{
    if o.len() == 0 {
        (s, None)
    } else {
        match register_entry(s, o[0]) {
            None => (s, Some(o[0].code)),
            Some(s2) => merge_entries(s2, o.drop_first()),
        }
    }
}

/// The message of the error for a code registered twice.
pub open spec fn duplicate_message(code: Seq<char>) -> Seq<char> {
    "duplicate error code registration: "@ + code
}

/// Whether an entry belongs to domain `d`.
pub open spec fn of_domain(d: Seq<char>) -> spec_fn(GrassErrorEntryView) -> bool {
    |e: GrassErrorEntryView| e.domain == d
}

/// Whether an entry has severity `v`.
pub open spec fn of_severity(v: GrassErrorSeverity) -> spec_fn(GrassErrorEntryView) -> bool {
    |e: GrassErrorEntryView| e.severity == v
}

/// The codes of the entries of `s`, in order.
pub open spec fn code_list(s: Seq<GrassErrorEntryView>) -> Seq<Seq<char>> {
    s.map_values(|e: GrassErrorEntryView| e.code)
}

/// The distinct domains of the entries of `s`.
pub open spec fn domain_set(s: Seq<GrassErrorEntryView>) -> Set<Seq<char>> {
    s.map_values(|e: GrassErrorEntryView| e.domain).to_set()
}

/// Strictly ascending texts.
pub open spec fn strictly_sorted(s: Seq<Seq<char>>) -> bool {
    forall|i: int, j: int| 0 <= i < j < s.len() ==> chars_lt(s[i], s[j])
}

pub proof fn lemma_find_entry_at(s: Seq<GrassErrorEntryView>, code: Seq<char>, i: int)
    requires
        0 <= i <= s.len(),
        i < s.len() ==> s[i].code == code,
        forall|k: int| 0 <= k < i ==> s[k].code != code,
    ensures
        find_entry(s, code) == (if i < s.len() {
            Some(s[i])
        } else {
            None::<GrassErrorEntryView>
        }),
    decreases s.len(),
{
    if s.len() > 0 && i > 0 {
        lemma_find_entry_at(s.drop_first(), code, i - 1);
    }
}

pub proof fn lemma_find_entry_none(s: Seq<GrassErrorEntryView>, code: Seq<char>)
    requires
        forall|k: int| 0 <= k < s.len() ==> s[k].code != code,
    ensures
        find_entry(s, code) is None,
{
    lemma_find_entry_at(s, code, s.len() as int);
}

pub proof fn lemma_find_entry_some(s: Seq<GrassErrorEntryView>, code: Seq<char>)
    requires
        find_entry(s, code) is Some,
    ensures
        exists|k: int| 0 <= k < s.len() && s[k].code == code && find_entry(s, code) == Some(s[k]),
    decreases s.len(),
{
    if s[0].code != code {
        lemma_find_entry_some(s.drop_first(), code);
        let k = choose|k: int|
            0 <= k < s.drop_first().len() && s.drop_first()[k].code == code && find_entry(
                s.drop_first(),
                code,
            ) == Some(s.drop_first()[k]);
        assert(s[k + 1] == s.drop_first()[k]);
    }
}

pub proof fn lemma_insert_by_code_at(s: Seq<GrassErrorEntryView>, e: GrassErrorEntryView, p: int)
    requires
        0 <= p <= s.len(),
        forall|k: int| 0 <= k < p ==> chars_lt(s[k].code, e.code),
        p < s.len() ==> chars_lt(e.code, s[p].code),
    ensures
        insert_by_code(s, e) == s.insert(p, e),
    decreases s.len(),
{
    if s.len() == 0 {
        assert(s.insert(p, e) =~= seq![e]);
    } else if p == 0 {
        assert(s.insert(p, e) =~= seq![e] + s);
    } else {
        lemma_chars_lt_asymmetric(s[0].code, e.code);
        lemma_insert_by_code_at(s.drop_first(), e, p - 1);
        assert(s.insert(p, e) =~= seq![s[0]] + s.drop_first().insert(p - 1, e));
    }
}

/// In a code-ordered sequence every code is listed once, so the entry found
/// for a listed code is the one listed.
pub proof fn lemma_sorted_find(s: Seq<GrassErrorEntryView>, i: int)
    requires
        sorted_by_code(s),
        0 <= i < s.len(),
    ensures
        find_entry(s, s[i].code) == Some(s[i]),
{
    assert forall|k: int| 0 <= k < i implies s[k].code != s[i].code by {
        lemma_chars_lt_irreflexive(s[i].code);
    }
    lemma_find_entry_at(s, s[i].code, i);
}

/// A code-ordered catalogue of error entries, one per code.
pub struct GrassErrorTable {
    entries: Vec<GrassErrorEntry>,
}

impl View for GrassErrorTable {
    type V = Seq<GrassErrorEntryView>;

    closed spec fn view(&self) -> Seq<GrassErrorEntryView> {
        self.entries@.map_values(|e: GrassErrorEntry| e@)
    }
}

impl GrassErrorTable {
    /// Entries are kept in strictly ascending code order.
    pub open spec fn wf(&self) -> bool {
        sorted_by_code(self@)
    }

    /// An empty table.
    pub fn new() -> (r: Self)
        ensures
            r.wf(),
            r@ == Seq::<GrassErrorEntryView>::empty(),
    {
        let r = GrassErrorTable { entries: Vec::new() };
        assert(r@ =~= Seq::<GrassErrorEntryView>::empty());
        r
    }

    /// Index of the first entry whose code does not sort before `code`.
    fn position(&self, code: &str) -> (p: usize)
        requires
            self.wf(),
        ensures
            p <= self@.len(),
            forall|k: int| 0 <= k < p ==> chars_lt(self@[k].code, code@),
            p < self@.len() ==> !chars_lt(self@[p as int].code, code@),
    {
        let mut i: usize = 0;
        while i < self.entries.len() && str_less(self.entries[i].code.as_str(), code)
            invariant
                i <= self.entries.len(),
                self@.len() == self.entries.len(),
                forall|k: int| 0 <= k < i ==> chars_lt(self@[k].code, code@),
            decreases self.entries.len() - i,
        {
            i = i + 1;
        }
        i
    }

    /// Adds `entry`; refuses it, leaving the table as it was, when its code is
    /// already registered.
    pub fn register(&mut self, entry: GrassErrorEntry) -> (r: Result<(), GrassError>)
        requires
            old(self).wf(),
        ensures
            final(self).wf(),
            find_entry(old(self)@, entry@.code) is Some ==> final(self)@ == old(self)@ && (
            r matches Err(GrassError::Internal(m)) && m@ == duplicate_message(entry@.code)),
            find_entry(old(self)@, entry@.code) is None ==> r is Ok && final(self)@
                == insert_by_code(old(self)@, entry@),
    {
        let p = self.position(entry.code.as_str());
        let ghost s = self@;
        let ghost c = entry@.code;
        if p < self.entries.len() && self.entries[p].code == entry.code {
            proof {
                lemma_sorted_find(s, p as int);
            }
            let msg = join2("duplicate error code registration: ", entry.code.as_str());
            return Err(GrassError::Internal(msg));
        }
        proof {
            if p < s.len() {
                lemma_chars_lt_total(s[p as int].code, c);
                assert forall|k: int| p <= k < s.len() implies chars_lt(c, s[k].code) by {
                    if k > p {
                        lemma_chars_lt_transitive(c, s[p as int].code, s[k].code);
                    }
                }
            }
            assert forall|k: int| 0 <= k < s.len() implies s[k].code != c by {
                if k < p {
                    lemma_chars_lt_irreflexive(c);
                } else {
                    lemma_chars_lt_irreflexive(c);
                }
            }
            lemma_find_entry_none(s, c);
            lemma_insert_by_code_at(s, entry@, p as int);
        }
        let ghost ev = entry@;
        self.entries.insert(p, entry);
        assert(self@ =~= s.insert(p as int, ev));
        Ok(())
    }

    /// The entry registered under `code`, if any.
    pub fn lookup(&self, code: &str) -> (r: Option<&GrassErrorEntry>)
        requires
            self.wf(),
        ensures
            match r {
                Some(e) => find_entry(self@, code@) == Some(e@),
                None => find_entry(self@, code@) is None,
            },
    {
        let mut i: usize = 0;
        while i < self.entries.len()
            invariant
                i <= self.entries.len(),
                self@.len() == self.entries.len(),
                forall|k: int| 0 <= k < i ==> self@[k].code != code@,
            decreases self.entries.len() - i,
        {
            if str_eq(self.entries[i].code.as_str(), code) {
                proof {
                    lemma_find_entry_at(self@, code@, i as int);
                }
                return Some(&self.entries[i]);
            }
            i = i + 1;
        }
        proof {
            lemma_find_entry_none(self@, code@);
        }
        None
    }

    /// Whether `code` is registered.
    pub fn contains(&self, code: &str) -> (r: bool)
        requires
            self.wf(),
        ensures
            r == find_entry(self@, code@) is Some,
    {
        self.lookup(code).is_some()
    }

    /// The entries of the given domain, in code order.
    pub fn lookup_domain(&self, domain: &str) -> (r: Vec<&GrassErrorEntry>)
        requires
            self.wf(),
        ensures
            r@.map_values(|e: &GrassErrorEntry| e@) == self@.filter(of_domain(domain@)),
    {
        let ghost pred = of_domain(domain@);
        let mut r: Vec<&GrassErrorEntry> = Vec::new();
        let mut i: usize = 0;
        while i < self.entries.len()
            invariant
                i <= self.entries.len(),
                self@.len() == self.entries.len(),
                pred == of_domain(domain@),
                r@.map_values(|e: &GrassErrorEntry| e@) == self@.take(i as int).filter(pred),
            decreases self.entries.len() - i,
        {
            let ghost before = r@;
            if str_eq(self.entries[i].domain.as_str(), domain) {
                r.push(&self.entries[i]);
            }
            proof {
                reveal(Seq::filter);
                assert(self@.take(i + 1).drop_last() =~= self@.take(i as int));
                if pred(self@[i as int]) {
                    assert(r@.map_values(|e: &GrassErrorEntry| e@) =~= before.map_values(
                        |e: &GrassErrorEntry| e@,
                    ).push(self@[i as int]));
                } else {
                    assert(r@ =~= before);
                }
            }
            i = i + 1;
        }
        assert(self@.take(self.entries.len() as int) =~= self@);
        r
    }

    /// The entries of the given severity, in code order.
    pub fn lookup_severity(&self, severity: GrassErrorSeverity) -> (r: Vec<&GrassErrorEntry>)
        requires
            self.wf(),
        ensures
            r@.map_values(|e: &GrassErrorEntry| e@) == self@.filter(of_severity(severity)),
    {
        let ghost pred = of_severity(severity);
        let mut r: Vec<&GrassErrorEntry> = Vec::new();
        let mut i: usize = 0;
        while i < self.entries.len()
            invariant
                i <= self.entries.len(),
                self@.len() == self.entries.len(),
                pred == of_severity(severity),
                r@.map_values(|e: &GrassErrorEntry| e@) == self@.take(i as int).filter(pred),
            decreases self.entries.len() - i,
        {
            let ghost before = r@;
            assert(self@[i as int] == self.entries@[i as int]@);
            if self.entries[i].severity == severity {
                r.push(&self.entries[i]);
            }
            proof {
                reveal(Seq::filter);
                assert(self@.take(i + 1).drop_last() =~= self@.take(i as int));
                if pred(self@[i as int]) {
                    assert(r@.map_values(|e: &GrassErrorEntry| e@) =~= before.map_values(
                        |e: &GrassErrorEntry| e@,
                    ).push(self@[i as int]));
                } else {
                    assert(r@ =~= before);
                }
            }
            i = i + 1;
        }
        assert(self@.take(self.entries.len() as int) =~= self@);
        r
    }

    /// All registered codes, in ascending order.
    pub fn codes(&self) -> (r: Vec<&str>)
        requires
            self.wf(),
        ensures
            r@.map_values(|c: &str| c@) == code_list(self@),
    {
        let mut r: Vec<&str> = Vec::new();
        let mut i: usize = 0;
        while i < self.entries.len()
            invariant
                i <= self.entries.len(),
                self@.len() == self.entries.len(),
                r@.map_values(|c: &str| c@) == self@.take(i as int).map_values(
                    |e: GrassErrorEntryView| e.code,
                ),
            decreases self.entries.len() - i,
        {
            assert(self@[i as int] == self.entries@[i as int]@);
            let ghost before = r@;
            let c = self.entries[i].code.as_str();
            r.push(c);
            assert(self@.take(i + 1) =~= self@.take(i as int).push(self@[i as int]));
            assert(r@ =~= before.push(c));
            assert(c@ == self@[i as int].code);
            assert(r@.map_values(|c: &str| c@) =~= before.map_values(|c: &str| c@).push(c@));
            i = i + 1;
            assert(r@.map_values(|c: &str| c@) =~= self@.take(i as int).map_values(
                |e: GrassErrorEntryView| e.code,
            ));
        }
        assert(self@.take(self.entries.len() as int) =~= self@);
        r
    }

    /// All registered entries, in code order.
    pub fn entries(&self) -> (r: Vec<&GrassErrorEntry>)
        requires
            self.wf(),
        ensures
            r@.map_values(|e: &GrassErrorEntry| e@) == self@,
    {
        let mut r: Vec<&GrassErrorEntry> = Vec::new();
        let mut i: usize = 0;
        while i < self.entries.len()
            invariant
                i <= self.entries.len(),
                self@.len() == self.entries.len(),
                r@.map_values(|e: &GrassErrorEntry| e@) == self@.take(i as int),
            decreases self.entries.len() - i,
        {
            assert(self@[i as int] == self.entries@[i as int]@);
            let ghost before = r@;
            r.push(&self.entries[i]);
            assert(self@.take(i + 1) =~= self@.take(i as int).push(self@[i as int]));
            assert(r@ =~= before.push(&self.entries@[i as int]));
            i = i + 1;
            assert(r@.map_values(|e: &GrassErrorEntry| e@) =~= self@.take(i as int));
        }
        assert(self@.take(self.entries.len() as int) =~= self@);
        r
    }

    /// The number of registered entries.
    pub fn len(&self) -> (r: usize)
        ensures
            r == self@.len(),
    {
        self.entries.len()
    }

    /// Whether no entry is registered.
    pub fn is_empty(&self) -> (r: bool)
        ensures
            r == (self@.len() == 0),
    {
        self.entries.len() == 0
    }

    /// The distinct domains of the registered entries, in ascending order.
    pub fn domains(&self) -> (r: Vec<&str>)
        requires
            self.wf(),
        ensures
            strictly_sorted(r@.map_values(|d: &str| d@)),
            r@.map_values(|d: &str| d@).to_set() == domain_set(self@),
    {
        let mut r: Vec<&str> = Vec::new();
        let mut i: usize = 0;
        while i < self.entries.len()
            invariant
                i <= self.entries.len(),
                self@.len() == self.entries.len(),
                strictly_sorted(r@.map_values(|d: &str| d@)),
                r@.map_values(|d: &str| d@).to_set() == domain_set(self@.take(i as int)),
            decreases self.entries.len() - i,
        {
            let d = self.entries[i].domain.as_str();
            insert_sorted_str(&mut r, d);
            proof {
                let t = self@.take(i + 1);
                assert(t.map_values(|e: GrassErrorEntryView| e.domain) =~= self@.take(
                    i as int,
                ).map_values(|e: GrassErrorEntryView| e.domain).push(d@));
                self@.take(i as int).map_values(|e: GrassErrorEntryView| e.domain).lemma_push_to_set_commute(
                    d@,
                );
            }
            i = i + 1;
        }
        assert(self@.take(self.entries.len() as int) =~= self@);
        r
    }

    /// Registers the entries of `other` in code order, stopping at the first
    /// whose code is already registered; the entries registered before it
    /// stay.
    pub fn merge(&mut self, other: &GrassErrorTable) -> (r: Result<(), GrassError>)
        requires
            old(self).wf(),
            other.wf(),
        ensures
            final(self).wf(),
            final(self)@ == merge_entries(old(self)@, other@).0,
            r is Ok <==> merge_entries(old(self)@, other@).1 is None,
            r is Err ==> (r matches Err(GrassError::Internal(m)) && m@ == duplicate_message(
                merge_entries(old(self)@, other@).1->0,
            )),
    {
        let mut i: usize = 0;
        assert(other@.skip(0) =~= other@);
        while i < other.entries.len()
            invariant
                self.wf(),
                i <= other.entries.len(),
                other@.len() == other.entries.len(),
                merge_entries(old(self)@, other@) == merge_entries(self@, other@.skip(i as int)),
            decreases other.entries.len() - i,
        {
            let e = other.entries[i].clone();
            assert(other@[i as int] == other.entries@[i as int]@);
            let ghost before = self@;
            assert(other@.skip(i as int)[0] == e@);
            assert(other@.skip(i as int).drop_first() =~= other@.skip(i + 1));
            let res = self.register(e);
            match res {
                Err(err) => {
                    return Err(err);
                },
                Ok(()) => {},
            }
            i = i + 1;
        }
        assert(other@.skip(other.entries.len() as int) =~= Seq::<GrassErrorEntryView>::empty());
        Ok(())
    }
}

/// Inserts `d` into the strictly ascending list `r` unless it is there.
fn insert_sorted_str<'a>(r: &mut Vec<&'a str>, d: &'a str)
    requires
        strictly_sorted(old(r)@.map_values(|x: &str| x@)),
    ensures
        strictly_sorted(final(r)@.map_values(|x: &str| x@)),
        final(r)@.map_values(|x: &str| x@).to_set() == old(r)@.map_values(|x: &str| x@).to_set().insert(
            d@,
        ),
{
    let ghost s = r@.map_values(|x: &str| x@);
    let mut p: usize = 0;
    while p < r.len() && str_less(r[p], d)
        invariant
            p <= r.len(),
            s == r@.map_values(|x: &str| x@),
            forall|k: int| 0 <= k < p ==> chars_lt(s[k], d@),
        decreases r.len() - p,
    {
        p = p + 1;
    }
    if p < r.len() && str_eq(r[p], d) {
        proof {
            assert(s[p as int] == d@);
            assert(s.to_set().contains(d@));
            assert(s.to_set().insert(d@) =~= s.to_set());
        }
        return;
    }
    proof {
        if p < s.len() {
            lemma_chars_lt_total(s[p as int], d@);
            assert forall|k: int| p <= k < s.len() implies chars_lt(d@, s[k]) by {
                if k > p {
                    lemma_chars_lt_transitive(d@, s[p as int], s[k]);
                }
            }
        }
    }
    r.insert(p, d);
    proof {
        let t = r@.map_values(|x: &str| x@);
        assert(t =~= s.insert(p as int, d@));
        assert forall|i: int, j: int| 0 <= i < j < t.len() implies chars_lt(t[i], t[j]) by {
            if i < p && j == p {
            } else if i == p && j > p {
            } else if i < p && j > p {
                lemma_chars_lt_transitive(s[i], d@, s[j - 1]);
            } else if j < p {
            } else {
            }
        }
        assert forall|x: Seq<char>| t.to_set().contains(x) <==> s.to_set().insert(d@).contains(x) by {
            if t.to_set().contains(x) {
                let k = choose|k: int| 0 <= k < t.len() && t[k] == x;
                if k < p {
                    assert(s[k] == x);
                } else if k > p {
                    assert(s[k - 1] == x);
                }
            }
            if s.to_set().contains(x) {
                let k = choose|k: int| 0 <= k < s.len() && s[k] == x;
                if k < p {
                    assert(t[k] == x);
                } else {
                    assert(t[k + 1] == x);
                }
            }
            if x == d@ {
                assert(t[p as int] == x);
            }
        }
        assert(t.to_set() =~= s.to_set().insert(d@));
    }
}

/// Registering an entry under a new code adds exactly one entry: looking the
/// code up afterwards finds that entry, every other code is found as before,
/// and the table grows by one.
pub proof fn lemma_register_then_lookup(
    s: Seq<GrassErrorEntryView>,
    e: GrassErrorEntryView,
    other: Seq<char>,
)
    requires
        find_entry(s, e.code) is None,
    ensures
        register_entry(s, e) == Some(insert_by_code(s, e)),
        find_entry(insert_by_code(s, e), e.code) == Some(e),
        other != e.code ==> find_entry(insert_by_code(s, e), other) == find_entry(s, other),
        insert_by_code(s, e).len() == s.len() + 1,
    decreases s.len(),
{
    if s.len() > 0 && !chars_lt(e.code, s[0].code) {
        let t = insert_by_code(s, e);
        let rest = insert_by_code(s.drop_first(), e);
        assert(s[0].code != e.code);
        lemma_register_then_lookup(s.drop_first(), e, other);
        assert(t[0] == s[0]);
        assert(t.drop_first() =~= rest);
        if other != s[0].code {
            assert(find_entry(t, other) == find_entry(t.drop_first(), other));
        }
    } else if s.len() > 0 {
        let t = insert_by_code(s, e);
        assert(t[0] == e);
        assert(t.drop_first() =~= s);
        if other != e.code {
            assert(find_entry(t, other) == find_entry(t.drop_first(), other));
        }
    } else {
        let t = insert_by_code(s, e);
        assert(t[0] == e);
        assert(t.drop_first() =~= Seq::<GrassErrorEntryView>::empty());
        if other != e.code {
            assert(find_entry(t, other) == find_entry(t.drop_first(), other));
        }
    }
}

/// Merging in a table that holds a code this table already has fails:
/// the merge stops at a taken code.
pub proof fn lemma_merge_rejects_collision(
    s: Seq<GrassErrorEntryView>,
    o: Seq<GrassErrorEntryView>,
    i: int,
)
    requires
        0 <= i < o.len(),
        find_entry(s, o[i].code) is Some,
    ensures
        merge_entries(s, o).1 is Some,
    decreases o.len(),
{
    if find_entry(s, o[0].code) is None {
        let s2 = insert_by_code(s, o[0]);
        lemma_register_then_lookup(s, o[0], o[i].code);
        assert(o.drop_first()[i - 1] == o[i]);
        lemma_merge_rejects_collision(s2, o.drop_first(), i - 1);
    }
}

/// Registering an entry whose code is taken changes nothing.
pub proof fn lemma_register_duplicate_unchanged(
    s: Seq<GrassErrorEntryView>,
    e: GrassErrorEntryView,
)
    requires
        find_entry(s, e.code) is Some,
    ensures
        register_entry(s, e) is None,
        merge_entries(s, seq![e]) == (s, Some(e.code)),
{
}

/// Placing `e` into `s` keeps every entry of `s` and adds only `e`.
pub proof fn lemma_insert_by_code_contains(s: Seq<GrassErrorEntryView>, e: GrassErrorEntryView)
    ensures
        forall|x: GrassErrorEntryView| #[trigger] insert_by_code(s, e).contains(x) ==> s.contains(x)
            || x == e,
    decreases s.len(),
{
    let t = insert_by_code(s, e);
    if s.len() > 0 && !chars_lt(e.code, s[0].code) {
        lemma_insert_by_code_contains(s.drop_first(), e);
        assert forall|x: GrassErrorEntryView| #[trigger] t.contains(x) implies s.contains(x) || x == e by {
            let k = choose|k: int| 0 <= k < t.len() && t[k] == x;
            if k == 0 {
                assert(s[0] == x);
            } else {
                assert(insert_by_code(s.drop_first(), e)[k - 1] == x);
                if insert_by_code(s.drop_first(), e).contains(x) && x != e {
                    let j = choose|j: int| 0 <= j < s.drop_first().len() && s.drop_first()[j] == x;
                    assert(s[j + 1] == x);
                }
            }
        }
    } else {
        assert forall|x: GrassErrorEntryView| #[trigger] t.contains(x) implies s.contains(x) || x == e by {
            let k = choose|k: int| 0 <= k < t.len() && t[k] == x;
            if k > 0 {
                assert(s[k - 1] == x);
            }
        }
    }
}


/// A filter keeps code order, and keeps exactly the entries that pass.
proof fn lemma_filter_sorted(s: Seq<GrassErrorEntryView>, p: spec_fn(GrassErrorEntryView) -> bool)
    requires
        sorted_by_code(s),
    ensures
        sorted_by_code(s.filter(p)),
        forall|x: GrassErrorEntryView| #[trigger] s.filter(p).contains(x) <==> (s.contains(x) && p(
            x,
        )),
    decreases s.len(),
{
    reveal(Seq::filter);
    if s.len() > 0 {
        let t = s.drop_last();
        let y = s.last();
        lemma_filter_sorted(t, p);
        let f = t.filter(p);
        assert forall|x: GrassErrorEntryView| s.contains(x) <==> (t.contains(x) || x == y) by {
            if s.contains(x) {
                let k = choose|k: int| 0 <= k < s.len() && s[k] == x;
                if k < s.len() - 1 {
                    assert(t[k] == x);
                }
            }
            if t.contains(x) {
                let k = choose|k: int| 0 <= k < t.len() && t[k] == x;
                assert(s[k] == x);
            }
            if x == y {
                assert(s[s.len() - 1] == x);
            }
        }
        if p(y) {
            let g = f.push(y);
            assert forall|x: GrassErrorEntryView| g.contains(x) <==> (f.contains(x) || x == y) by {
                if g.contains(x) {
                    let k = choose|k: int| 0 <= k < g.len() && g[k] == x;
                    if k < f.len() {
                        assert(f[k] == x);
                    }
                }
                if f.contains(x) {
                    let k = choose|k: int| 0 <= k < f.len() && f[k] == x;
                    assert(g[k] == x);
                }
                if x == y {
                    assert(g[f.len() as int] == x);
                }
            }
            assert forall|i: int, j: int| 0 <= i < j < g.len() implies chars_lt(
                g[i].code,
                g[j].code,
            ) by {
                if j == f.len() {
                    assert(f.contains(f[i]));
                    let k = choose|k: int| 0 <= k < t.len() && t[k] == f[i];
                    assert(s[k] == f[i]);
                    assert(s[s.len() - 1] == y);
                }
            }
        }
    }
}

/// A table's entries of one domain come in code order, are exactly the
/// table's entries of that domain, and are none at all exactly when the
/// domain is not among the table's domains.
pub proof fn lemma_lookup_domain(s: Seq<GrassErrorEntryView>, d: Seq<char>)
    requires
        sorted_by_code(s),
    ensures
        sorted_by_code(s.filter(of_domain(d))),
        forall|x: GrassErrorEntryView| #[trigger] s.filter(of_domain(d)).contains(x) <==> (
        s.contains(x) && x.domain == d),
        s.filter(of_domain(d)).len() == 0 <==> !domain_set(s).contains(d),
{
    let f = s.filter(of_domain(d));
    lemma_filter_sorted(s, of_domain(d));
    let ds = s.map_values(|e: GrassErrorEntryView| e.domain);
    if domain_set(s).contains(d) {
        assert(ds.contains(d));
        let k = choose|k: int| 0 <= k < ds.len() && ds[k] == d;
        assert(s.contains(s[k]));
        assert(f.contains(s[k]));
    }
    if f.len() > 0 {
        assert(f.contains(f[0]));
        assert(s.contains(f[0]));
        let k = choose|k: int| 0 <= k < s.len() && s[k] == f[0];
        assert(ds[k] == d);
        assert(ds.contains(d));
    }
}

proof fn lemma_severity_counts(s: Seq<GrassErrorEntryView>)
    ensures
        s.filter(of_severity(GrassErrorSeverity::Info)).len() + s.filter(
            of_severity(GrassErrorSeverity::Warning),
        ).len() + s.filter(of_severity(GrassErrorSeverity::Error)).len() + s.filter(
            of_severity(GrassErrorSeverity::Critical),
        ).len() == s.len(),
    decreases s.len(),
{
    reveal(Seq::filter);
    if s.len() > 0 {
        lemma_severity_counts(s.drop_last());
    }
}

/// The entries of the four severities split a table: each entry has exactly
/// one severity, so the four lists share no entry and their lengths add up
/// to the table's length; each list is in code order.
pub proof fn lemma_severity_partition(s: Seq<GrassErrorEntryView>)
    requires
        sorted_by_code(s),
    ensures
        s.filter(of_severity(GrassErrorSeverity::Info)).len() + s.filter(
            of_severity(GrassErrorSeverity::Warning),
        ).len() + s.filter(of_severity(GrassErrorSeverity::Error)).len() + s.filter(
            of_severity(GrassErrorSeverity::Critical),
        ).len() == s.len(),
        forall|a: GrassErrorSeverity, b: GrassErrorSeverity, x: GrassErrorEntryView|
            a != b && #[trigger] s.filter(of_severity(a)).contains(x) ==> !#[trigger] s.filter(
                of_severity(b),
            ).contains(x),
        forall|v: GrassErrorSeverity| #[trigger] sorted_by_code(s.filter(of_severity(v))),
        forall|v: GrassErrorSeverity, x: GrassErrorEntryView| #[trigger]
            s.filter(of_severity(v)).contains(x) <==> (s.contains(x) && x.severity == v),
{
    lemma_severity_counts(s);
    assert forall|v: GrassErrorSeverity| #[trigger] sorted_by_code(s.filter(of_severity(v))) by {
        lemma_filter_sorted(s, of_severity(v));
    }
    assert forall|v: GrassErrorSeverity, x: GrassErrorEntryView| #[trigger]
        s.filter(of_severity(v)).contains(x) <==> (s.contains(x) && x.severity == v) by {
        lemma_filter_sorted(s, of_severity(v));
        assert(of_severity(v)(x) == (x.severity == v));
    }
    assert forall|a: GrassErrorSeverity, b: GrassErrorSeverity, x: GrassErrorEntryView|
        a != b && #[trigger] s.filter(of_severity(a)).contains(x) implies !#[trigger] s.filter(
            of_severity(b),
        ).contains(x) by {
        lemma_filter_sorted(s, of_severity(a));
        lemma_filter_sorted(s, of_severity(b));
        assert(of_severity(a)(x) == (x.severity == a));
        assert(of_severity(b)(x) == (x.severity == b));
    }
}

proof fn lemma_find_entry_absent(s: Seq<GrassErrorEntryView>, code: Seq<char>)
    requires
        find_entry(s, code) is None,
    ensures
        forall|k: int| 0 <= k < s.len() ==> s[k].code != code,
    decreases s.len(),
{
    if s.len() > 0 {
        lemma_find_entry_absent(s.drop_first(), code);
        assert forall|k: int| 0 <= k < s.len() implies s[k].code != code by {
            if k > 0 {
                assert(s[k] == s.drop_first()[k - 1]);
            }
        }
    }
}

/// A table's code list is strictly ascending, one code per entry, and a code
/// is registered (found by `lookup`, reported by `contains`) exactly when it
/// is in the code list; what `lookup` finds is the table's entry with that
/// code.
pub proof fn lemma_codes_agree(s: Seq<GrassErrorEntryView>, c: Seq<char>)
    requires
        sorted_by_code(s),
    ensures
        strictly_sorted(code_list(s)),
        code_list(s).len() == s.len(),
        forall|i: int| 0 <= i < s.len() ==> #[trigger] code_list(s)[i] == s[i].code,
        (find_entry(s, c) is Some) <==> code_list(s).contains(c),
        find_entry(s, c) matches Some(e) ==> e.code == c && s.contains(e),
{
    let cs = code_list(s);
    if find_entry(s, c) is Some {
        lemma_find_entry_some(s, c);
        let k = choose|k: int| 0 <= k < s.len() && s[k].code == c && find_entry(s, c) == Some(s[k]);
        assert(cs[k] == c);
        assert(s.contains(s[k]));
    } else {
        lemma_find_entry_absent(s, c);
        if cs.contains(c) {
            let k = choose|k: int| 0 <= k < cs.len() && cs[k] == c;
            assert(s[k].code == c);
        }
    }
}

/// A table has no domains exactly when it has no entries (whatever list
/// holds its domains).
pub proof fn lemma_domains_empty(s: Seq<GrassErrorEntryView>, ds: Seq<Seq<char>>)
    requires
        ds.to_set() == domain_set(s),
    ensures
        ds.len() == 0 <==> s.len() == 0,
{
    let m = s.map_values(|e: GrassErrorEntryView| e.domain);
    if s.len() > 0 {
        assert(m[0] == s[0].domain);
        assert(m.contains(s[0].domain));
        assert(domain_set(s).contains(s[0].domain));
        assert(ds.to_set().contains(s[0].domain));
    }
    if ds.len() > 0 {
        assert(ds.contains(ds[0]));
        assert(ds.to_set().contains(ds[0]));
        assert(m.contains(ds[0]));
    }
}

/// The position of the first entry of `o` whose code `s` already holds
/// (`o.len()` when there is none).
pub open spec fn first_collision(s: Seq<GrassErrorEntryView>, o: Seq<GrassErrorEntryView>) -> int
    decreases o.len(),
{
    if o.len() == 0 {
        0
    } else if find_entry(s, o[0].code) is Some {
        0
    } else {
        1 + first_collision(s, o.drop_first())
    }
}

proof fn lemma_first_collision(s: Seq<GrassErrorEntryView>, o: Seq<GrassErrorEntryView>)
    ensures
        0 <= first_collision(s, o) <= o.len(),
        forall|j: int| 0 <= j < first_collision(s, o) ==> find_entry(s, #[trigger] o[j].code) is None,
        first_collision(s, o) < o.len() ==> find_entry(s, o[first_collision(s, o)].code) is Some,
    decreases o.len(),
{
    if o.len() > 0 && find_entry(s, o[0].code) is None {
        lemma_first_collision(s, o.drop_first());
        assert forall|j: int| 0 <= j < first_collision(s, o) implies find_entry(
            s,
            #[trigger] o[j].code,
        ) is None by {
            if j > 0 {
                assert(o[j] == o.drop_first()[j - 1]);
            }
        }
        if first_collision(s, o) < o.len() {
            assert(o[first_collision(s, o)] == o.drop_first()[first_collision(s, o.drop_first())]);
        }
    }
}

proof fn lemma_merge_steps(s: Seq<GrassErrorEntryView>, o: Seq<GrassErrorEntryView>, c: Seq<char>)
    requires
        sorted_by_code(o),
    ensures
        ({
            let k = first_collision(s, o);
            let (r, stop) = merge_entries(s, o);
            &&& stop == (if k < o.len() {
                Some(o[k].code)
            } else {
                None::<Seq<char>>
            })
            &&& r.len() == s.len() + k
            &&& find_entry(r, c) == (if find_entry(s, c) is Some {
                find_entry(s, c)
            } else {
                find_entry(o.take(k), c)
            })
        }),
    decreases o.len(),
{
    if o.len() == 0 {
        assert(o.take(0) =~= o);
    } else if find_entry(s, o[0].code) is Some {
        assert(o.take(0) =~= Seq::<GrassErrorEntryView>::empty());
    } else {
        let e = o[0];
        let s2 = insert_by_code(s, e);
        let o2 = o.drop_first();
        lemma_register_then_lookup(s, e, c);
        assert(register_entry(s, e) == Some(s2));
        lemma_merge_steps(s2, o2, c);
        lemma_first_collision(s, o);
        lemma_first_collision(s2, o2);
        let k = first_collision(s, o);
        // the later entries of `o` hold codes other than `e`'s
        assert forall|j: int| 0 <= j < o2.len() implies find_entry(s2, #[trigger] o2[j].code)
            == find_entry(s, o2[j].code) by {
            assert(o2[j] == o[j + 1]);
            lemma_chars_lt_irreflexive(e.code);
            assert(chars_lt(o[0].code, o[j + 1].code));
            lemma_register_then_lookup(s, e, o2[j].code);
        }
        assert(first_collision(s2, o2) == k - 1) by {
            assert(first_collision(s, o) == 1 + first_collision(s, o2));
            lemma_first_collision_same(s, s2, o2);
        }
        assert(o.take(k).drop_first() =~= o2.take(k - 1));
        assert(o.take(k)[0] == e);
        if find_entry(s, c) is None && c != e.code {
            assert(find_entry(o.take(k), c) == find_entry(o.take(k).drop_first(), c));
        }
    }
}

proof fn lemma_first_collision_same(
    s: Seq<GrassErrorEntryView>,
    s2: Seq<GrassErrorEntryView>,
    o: Seq<GrassErrorEntryView>,
)
    requires
        forall|j: int| 0 <= j < o.len() ==> find_entry(s2, #[trigger] o[j].code) == find_entry(
            s,
            o[j].code,
        ),
    ensures
        first_collision(s2, o) == first_collision(s, o),
    decreases o.len(),
{
    if o.len() > 0 {
        assert(find_entry(s2, o[0].code) == find_entry(s, o[0].code));
        assert forall|j: int| 0 <= j < o.drop_first().len() implies find_entry(
            s2,
            #[trigger] o.drop_first()[j].code,
        ) == find_entry(s, o.drop_first()[j].code) by {
            assert(o.drop_first()[j] == o[j + 1]);
        }
        lemma_first_collision_same(s, s2, o.drop_first());
    }
}

/// What a merge leaves: with `k*` the smallest code of the other table that
/// this table already holds (at position `k` of the other table), the merge
/// fails at `k*` having added exactly the other table's entries whose codes
/// sort below `k*`, the first `k` of them; with no such code it succeeds
/// having added all of them. The table's own entries are never replaced.
pub proof fn lemma_merge_outcome(s: Seq<GrassErrorEntryView>, o: Seq<GrassErrorEntryView>)
    requires
        sorted_by_code(o),
    ensures
        ({
            let k = first_collision(s, o);
            let (r, stop) = merge_entries(s, o);
            &&& 0 <= k <= o.len()
            &&& forall|j: int| 0 <= j < o.len() && find_entry(s, #[trigger] o[j].code) is Some ==> k
                <= j
            &&& stop == (if k < o.len() {
                Some(o[k].code)
            } else {
                None::<Seq<char>>
            })
            &&& (k < o.len() ==> find_entry(s, o[k].code) is Some)
            &&& (k < o.len() ==> forall|j: int|
                0 <= j < o.len() ==> (j < k <==> chars_lt(#[trigger] o[j].code, o[k].code)))
            &&& r.len() == s.len() + k
            &&& forall|c: Seq<char>| #[trigger]
                find_entry(r, c) == (if find_entry(s, c) is Some {
                    find_entry(s, c)
                } else {
                    find_entry(o.take(k), c)
                })
        }),
{
    lemma_first_collision(s, o);
    let k = first_collision(s, o);
    if k < o.len() {
        assert forall|j: int| 0 <= j < o.len() implies (j < k <==> chars_lt(
            #[trigger] o[j].code,
            o[k].code,
        )) by {
            lemma_chars_lt_irreflexive(o[k].code);
            if j > k {
                lemma_chars_lt_asymmetric(o[k].code, o[j].code);
            }
        }
    }
    assert forall|c: Seq<char>| #[trigger]
        find_entry(merge_entries(s, o).0, c) == (if find_entry(s, c) is Some {
            find_entry(s, c)
        } else {
            find_entry(o.take(first_collision(s, o)), c)
        }) by {
        lemma_merge_steps(s, o, c);
    }
    lemma_merge_steps(s, o, Seq::empty());
}

} // verus!
