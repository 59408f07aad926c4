//! Interning vocabulary: lexical forms in, compact identifier values out.
//!
//! An identifier value mixes two cases: an *inline* value known statically,
//! and a *dynamic index* into the vocabulary's append-only arena. Insertion
//! first tries to classify the lexical form as an inline value; only
//! unclassified forms touch the arena. The behaviour of insertion, lookup and
//! resolution is pinned down by the spec functions `iri_arena_insert`,
//! `iri_insert_id`, `iri_get` and `iri_resolve` (and their blank node
//! counterparts), and the laws at the end of this module relate them:
//! insertion is injective and idempotent, and resolution inverts insertion.

use vstd::prelude::*;

verus! {

use crate::lexical::{BlankIdBuf, IriBuf};

/// Dynamic vocabulary term index.
#[derive(Clone, Copy, PartialEq, Eq, Structural, Hash, Debug)]
pub struct Index(pub usize);

impl From<usize> for Index {
    fn from(i: usize) -> (r: Self) {
        Index(i)
    }
}

impl vstd::std_specs::convert::FromSpecImpl<usize> for Index {
    open spec fn obeys_from_spec() -> bool {
        true
    }

    open spec fn from_spec(i: usize) -> Self {
        Index(i)
    }
}

impl From<Index> for usize {
    fn from(v: Index) -> (r: Self) {
        v.0
    }
}

impl vstd::std_specs::convert::FromSpecImpl<Index> for usize {
    open spec fn obeys_from_spec() -> bool {
        true
    }

    open spec fn from_spec(v: Index) -> Self {
        v.0
    }
}

/// IRI identifier mixing statically known inline IRIs (of type `I`) with
/// dynamically allocated arena indices.
#[derive(Clone, Copy, Debug)]
pub enum IriIndex<I> {
    /// Index of the IRI in the vocabulary's arena.
    Index(usize),
    /// Non-indexed, inline IRI.
    Iri(I),
}

impl<I: PartialEq> PartialEq for IriIndex<I> {
    fn eq(&self, other: &Self) -> (r: bool) {
        match (self, other) {
            (IriIndex::Index(a), IriIndex::Index(b)) => a == b,
            (IriIndex::Iri(a), IriIndex::Iri(b)) => a == b,
            _ => false,
        }
    }
}

impl<I: PartialEq> vstd::std_specs::cmp::PartialEqSpecImpl for IriIndex<I> {
    open spec fn obeys_eq_spec() -> bool {
        <I as vstd::std_specs::cmp::PartialEqSpec>::obeys_eq_spec()
    }

    open spec fn eq_spec(&self, other: &Self) -> bool {
        match (self, other) {
            (IriIndex::Index(a), IriIndex::Index(b)) => a == b,
            (IriIndex::Iri(a), IriIndex::Iri(b)) => <I as vstd::std_specs::cmp::PartialEqSpec>::eq_spec(a, b),
            _ => false,
        }
    }
}

/// Blank node identifier mixing statically known inline identifiers (of type
/// `B`) with dynamically allocated arena indices.
#[derive(Clone, Copy, Debug)]
pub enum BlankIdIndex<B> {
    /// Index of the blank node identifier in the vocabulary's arena.
    Index(usize),
    /// Non-indexed, inline blank node identifier.
    BlankId(B),
}

impl<B: PartialEq> PartialEq for BlankIdIndex<B> {
    fn eq(&self, other: &Self) -> (r: bool) {
        match (self, other) {
            (BlankIdIndex::Index(a), BlankIdIndex::Index(b)) => a == b,
            (BlankIdIndex::BlankId(a), BlankIdIndex::BlankId(b)) => a == b,
            _ => false,
        }
    }
}

impl<B: PartialEq> vstd::std_specs::cmp::PartialEqSpecImpl for BlankIdIndex<B> {
    open spec fn obeys_eq_spec() -> bool {
        <B as vstd::std_specs::cmp::PartialEqSpec>::obeys_eq_spec()
    }

    open spec fn eq_spec(&self, other: &Self) -> bool {
        match (self, other) {
            (BlankIdIndex::Index(a), BlankIdIndex::Index(b)) => a == b,
            (BlankIdIndex::BlankId(a), BlankIdIndex::BlankId(b)) => <B as vstd::std_specs::cmp::PartialEqSpec>::eq_spec(a, b),
            _ => false,
        }
    }
}

/// Partly indexed IRI identifier type.
///
/// A value stands either for a dynamic arena index or for an inline lexical
/// IRI; `spec_index` is that reading. Classification of a lexical form is a
/// function of the form alone, and an identifier built from a fresh index
/// reads back as that index: the two laws tie the exec methods together and
/// carry the vocabulary's uniqueness and round-trip arguments.
pub trait IndexedIri: Sized {
    /// The identifier that denotes dynamic index `i`.
    spec fn spec_from_index(i: usize) -> Self;

    /// The inline identifier a lexical IRI classifies to, if any.
    spec fn spec_classify(s: Seq<char>) -> Option<Self>;

    /// What this identifier stands for: a dynamic index or an inline lexical
    /// IRI.
    spec fn spec_index(self) -> IriIndex<Seq<char>>;

    /// An identifier built from index `i` stands for index `i`.
    proof fn lemma_from_index(i: usize)
        ensures
            Self::spec_from_index(i).spec_index() == IriIndex::<Seq<char>>::Index(i),
    ;

    /// An identifier a lexical form classifies to stands for that form.
    proof fn lemma_classify(s: Seq<char>)
        ensures
            Self::spec_classify(s) matches Some(v) ==> v.spec_index() == IriIndex::<
                Seq<char>,
            >::Iri(s),
    ;

    /// Builds the identifier for dynamic index `i`.
    fn from_index(i: usize) -> (r: Self)
        ensures
            r == Self::spec_from_index(i),
    ;

    /// Tries to classify a lexical IRI as a statically known inline value.
    fn classify(iri: &IriBuf) -> (r: Option<Self>)
        ensures
            r == Self::spec_classify(iri@),
    ;

    /// Reads this identifier back as an index or an inline lexical IRI.
    fn index(&self) -> (r: IriIndex<IriBuf>)
        ensures
            match r {
                IriIndex::Index(i) => self.spec_index() == IriIndex::<Seq<char>>::Index(i),
                IriIndex::Iri(b) => self.spec_index() == IriIndex::<Seq<char>>::Iri(b@),
            },
    ;
}

/// Partly indexed blank node identifier type; the mirror of [`IndexedIri`]
/// for the blank node identifier space.
pub trait IndexedBlankId: Sized {
    /// The identifier that denotes dynamic index `i`.
    spec fn spec_from_blank_index(i: usize) -> Self;

    /// The inline identifier a lexical blank node identifier classifies to,
    /// if any.
    spec fn spec_classify_blank_id(s: Seq<char>) -> Option<Self>;

    /// What this identifier stands for: a dynamic index or an inline lexical
    /// blank node identifier.
    spec fn spec_blank_id_index(self) -> BlankIdIndex<Seq<char>>;

    /// An identifier built from index `i` stands for index `i`.
    proof fn lemma_from_blank_index(i: usize)
        ensures
            Self::spec_from_blank_index(i).spec_blank_id_index() == BlankIdIndex::<
                Seq<char>,
            >::Index(i),
    ;

    /// An identifier a lexical form classifies to stands for that form.
    proof fn lemma_classify_blank_id(s: Seq<char>)
        ensures
            Self::spec_classify_blank_id(s) matches Some(v) ==> v.spec_blank_id_index()
                == BlankIdIndex::<Seq<char>>::BlankId(s),
    ;

    /// Builds the identifier for dynamic index `i`.
    fn from_blank_index(i: usize) -> (r: Self)
        ensures
            r == Self::spec_from_blank_index(i),
    ;

    /// Tries to classify a lexical blank node identifier as a statically
    /// known inline value.
    fn classify_blank_id(b: &BlankIdBuf) -> (r: Option<Self>)
        ensures
            r == Self::spec_classify_blank_id(b@),
    ;

    /// Reads this identifier back as an index or an inline lexical blank node
    /// identifier.
    fn blank_id_index(&self) -> (r: BlankIdIndex<BlankIdBuf>)
        ensures
            match r {
                BlankIdIndex::Index(i) => self.spec_blank_id_index() == BlankIdIndex::<
                    Seq<char>,
                >::Index(i),
                BlankIdIndex::BlankId(b) => self.spec_blank_id_index() == BlankIdIndex::<
                    Seq<char>,
                >::BlankId(b@),
            },
    ;
}

impl IndexedIri for Index {
    open spec fn spec_from_index(i: usize) -> Self {
        Index(i)
    }

    open spec fn spec_classify(s: Seq<char>) -> Option<Self> {
        None
    }

    open spec fn spec_index(self) -> IriIndex<Seq<char>> {
        IriIndex::Index(self.0)
    }

    proof fn lemma_from_index(i: usize) {
    }

    proof fn lemma_classify(s: Seq<char>) {
    }

    fn from_index(i: usize) -> (r: Self) {
        Index(i)
    }

    fn classify(iri: &IriBuf) -> (r: Option<Self>) {
        None
    }

    fn index(&self) -> (r: IriIndex<IriBuf>) {
        IriIndex::Index(self.0)
    }
}

impl IndexedBlankId for Index {
    open spec fn spec_from_blank_index(i: usize) -> Self {
        Index(i)
    }

    open spec fn spec_classify_blank_id(s: Seq<char>) -> Option<Self> {
        None
    }

    open spec fn spec_blank_id_index(self) -> BlankIdIndex<Seq<char>> {
        BlankIdIndex::Index(self.0)
    }

    proof fn lemma_from_blank_index(i: usize) {
    }

    proof fn lemma_classify_blank_id(s: Seq<char>) {
    }

    fn from_blank_index(i: usize) -> (r: Self) {
        Index(i)
    }

    fn classify_blank_id(b: &BlankIdBuf) -> (r: Option<Self>) {
        None
    }

    fn blank_id_index(&self) -> (r: BlankIdIndex<BlankIdBuf>) {
        BlankIdIndex::Index(self.0)
    }
}

/// Inline IRI payload: a type standing for a fixed set of statically known
/// IRIs, with classification from and rendering back to the lexical form.
pub trait InlineIri: Sized {
    /// The inline value a lexical IRI classifies to, if any.
    spec fn spec_inline_of(s: Seq<char>) -> Option<Self>;

    /// The lexical IRI this inline value stands for.
    spec fn spec_iri(self) -> Seq<char>;

    /// Classification inverts rendering.
    proof fn lemma_inline_of(s: Seq<char>)
        ensures
            Self::spec_inline_of(s) matches Some(v) ==> v.spec_iri() == s,
    ;

    /// Tries to classify a lexical IRI as an inline value.
    fn inline_of(iri: &IriBuf) -> (r: Option<Self>)
        ensures
            r == Self::spec_inline_of(iri@),
    ;

    /// Renders the lexical IRI this value stands for.
    fn iri(&self) -> (r: IriBuf)
        ensures
            r@ == self.spec_iri(),
    ;
}

/// Inline blank node identifier payload; the mirror of [`InlineIri`].
pub trait InlineBlankId: Sized {
    /// The inline value a lexical blank node identifier classifies to, if
    /// any.
    spec fn spec_inline_of_blank(s: Seq<char>) -> Option<Self>;

    /// The lexical blank node identifier this inline value stands for.
    spec fn spec_blank_id(self) -> Seq<char>;

    /// Classification inverts rendering.
    proof fn lemma_inline_of_blank(s: Seq<char>)
        ensures
            Self::spec_inline_of_blank(s) matches Some(v) ==> v.spec_blank_id() == s,
    ;

    /// Tries to classify a lexical blank node identifier as an inline value.
    fn inline_of_blank(b: &BlankIdBuf) -> (r: Option<Self>)
        ensures
            r == Self::spec_inline_of_blank(b@),
    ;

    /// Renders the lexical blank node identifier this value stands for.
    fn blank_id(&self) -> (r: BlankIdBuf)
        ensures
            r@ == self.spec_blank_id(),
    ;
}

impl<I: InlineIri> IndexedIri for IriIndex<I> {
    open spec fn spec_from_index(i: usize) -> Self {
        IriIndex::Index(i)
    }

    open spec fn spec_classify(s: Seq<char>) -> Option<Self> {
        match I::spec_inline_of(s) {
            Some(v) => Some(IriIndex::Iri(v)),
            None => None,
        }
    }

    open spec fn spec_index(self) -> IriIndex<Seq<char>> {
        match self {
            IriIndex::Index(i) => IriIndex::Index(i),
            IriIndex::Iri(v) => IriIndex::Iri(v.spec_iri()),
        }
    }

    proof fn lemma_from_index(i: usize) {
    }

    proof fn lemma_classify(s: Seq<char>) {
        I::lemma_inline_of(s);
    }

    fn from_index(i: usize) -> (r: Self) {
        IriIndex::Index(i)
    }

    fn classify(iri: &IriBuf) -> (r: Option<Self>) {
        match I::inline_of(iri) {
            Some(v) => Some(IriIndex::Iri(v)),
            None => None,
        }
    }

    fn index(&self) -> (r: IriIndex<IriBuf>) {
        match self {
            IriIndex::Index(i) => IriIndex::Index(*i),
            IriIndex::Iri(v) => IriIndex::Iri(v.iri()),
        }
    }
}

impl<B: InlineBlankId> IndexedBlankId for BlankIdIndex<B> {
    open spec fn spec_from_blank_index(i: usize) -> Self {
        BlankIdIndex::Index(i)
    }

    open spec fn spec_classify_blank_id(s: Seq<char>) -> Option<Self> {
        match B::spec_inline_of_blank(s) {
            Some(v) => Some(BlankIdIndex::BlankId(v)),
            None => None,
        }
    }

    open spec fn spec_blank_id_index(self) -> BlankIdIndex<Seq<char>> {
        match self {
            BlankIdIndex::Index(i) => BlankIdIndex::Index(i),
            BlankIdIndex::BlankId(v) => BlankIdIndex::BlankId(v.spec_blank_id()),
        }
    }

    proof fn lemma_from_blank_index(i: usize) {
    }

    proof fn lemma_classify_blank_id(s: Seq<char>) {
        B::lemma_inline_of_blank(s);
    }

    fn from_blank_index(i: usize) -> (r: Self) {
        BlankIdIndex::Index(i)
    }

    fn classify_blank_id(b: &BlankIdBuf) -> (r: Option<Self>) {
        match B::inline_of_blank(b) {
            Some(v) => Some(BlankIdIndex::BlankId(v)),
            None => None,
        }
    }

    fn blank_id_index(&self) -> (r: BlankIdIndex<BlankIdBuf>) {
        match self {
            BlankIdIndex::Index(i) => BlankIdIndex::Index(*i),
            BlankIdIndex::BlankId(v) => BlankIdIndex::BlankId(v.blank_id()),
        }
    }
}

/// Position of the first entry equal to `s`, if any.
pub open spec fn find_entry(ar: Seq<Seq<char>>, s: Seq<char>) -> Option<int>
    decreases ar.len(),
{
    if ar.len() == 0 {
        None
    } else if ar[0] == s {
        Some(0)
    } else {
        match find_entry(ar.drop_first(), s) {
            Some(k) => Some(k + 1),
            None => None,
        }
    }
}

/// What `find_entry` finds: a position holding `s`, or a guarantee that no
/// position holds `s`.
pub proof fn lemma_find_entry(ar: Seq<Seq<char>>, s: Seq<char>)
    ensures
        match find_entry(ar, s) {
            Some(k) => 0 <= k < ar.len() && ar[k] == s,
            None => forall|j: int| 0 <= j < ar.len() ==> ar[j] != s,
        },
    decreases ar.len(),
{
    if ar.len() > 0 && ar[0] != s {
        lemma_find_entry(ar.drop_first(), s);
        match find_entry(ar.drop_first(), s) {
            Some(k) => {
                assert(ar[k + 1] == ar.drop_first()[k]);
            },
            None => {
                assert forall|j: int| 0 <= j < ar.len() implies ar[j] != s by {
                    if j > 0 {
                        assert(ar[j] == ar.drop_first()[j - 1]);
                    }
                }
            },
        }
    }
}

/// A scan that stops at the first match agrees with `find_entry`.
proof fn lemma_find_entry_at(ar: Seq<Seq<char>>, s: Seq<char>, k: int)
    requires
        0 <= k < ar.len(),
        ar[k] == s,
        forall|j: int| 0 <= j < k ==> ar[j] != s,
    ensures
        find_entry(ar, s) == Some(k),
    decreases k,
{
    if k == 0 {
    } else {
        assert(ar[0] != s);
        assert(ar.drop_first()[k - 1] == ar[k]);
        assert(forall|j: int| 0 <= j < k - 1 ==> ar.drop_first()[j] == ar[j + 1]);
        lemma_find_entry_at(ar.drop_first(), s, k - 1);
    }
}

/// A scan that finds no match agrees with `find_entry`.
proof fn lemma_find_entry_none(ar: Seq<Seq<char>>, s: Seq<char>)
    requires
        forall|j: int| 0 <= j < ar.len() ==> ar[j] != s,
    ensures
        find_entry(ar, s) is None,
    decreases ar.len(),
{
    if ar.len() > 0 {
        assert(forall|j: int| 0 <= j < ar.len() - 1 ==> ar.drop_first()[j] == ar[j + 1]);
        lemma_find_entry_none(ar.drop_first(), s);
    }
}

/// Appending `s` to an arena without `s` makes `find_entry` find it at the
/// end.
proof fn lemma_find_entry_push(ar: Seq<Seq<char>>, s: Seq<char>)
    requires
        find_entry(ar, s) is None,
    ensures
        find_entry(ar.push(s), s) == Some(ar.len() as int),
{
    lemma_find_entry(ar, s);
    assert(ar.push(s)[ar.len() as int] == s);
    assert(forall|j: int| 0 <= j < ar.len() ==> ar.push(s)[j] == ar[j]);
    lemma_find_entry_at(ar.push(s), s, ar.len() as int);
}

/// The IRI arena after inserting lexical IRI `s`: unchanged when `s`
/// classifies inline or is already interned, extended by `s` otherwise.
pub open spec fn iri_arena_insert<I: IndexedIri>(ar: Seq<Seq<char>>, s: Seq<char>) -> Seq<
    Seq<char>,
> {
    if I::spec_classify(s) is Some {
        ar
    } else if find_entry(ar, s) is Some {
        ar
    } else {
        ar.push(s)
    }
}

/// The identifier that inserting lexical IRI `s` returns: its inline value,
/// its existing index, or the freshly allocated index.
pub open spec fn iri_insert_id<I: IndexedIri>(ar: Seq<Seq<char>>, s: Seq<char>) -> I {
    match I::spec_classify(s) {
        Some(v) => v,
        None => match find_entry(ar, s) {
            Some(k) => I::spec_from_index(k as usize),
            None => I::spec_from_index(ar.len() as usize),
        },
    }
}

/// Pure lookup of lexical IRI `s`: its inline value or its interned index;
/// nothing if `s` was never inserted.
pub open spec fn iri_get<I: IndexedIri>(ar: Seq<Seq<char>>, s: Seq<char>) -> Option<I> {
    match I::spec_classify(s) {
        Some(v) => Some(v),
        None => match find_entry(ar, s) {
            Some(k) => Some(I::spec_from_index(k as usize)),
            None => None,
        },
    }
}

/// The lexical IRI an identifier denotes against arena `ar`; nothing for an
/// index the arena does not hold.
pub open spec fn iri_resolve<I: IndexedIri>(ar: Seq<Seq<char>>, id: I) -> Option<Seq<char>> {
    match id.spec_index() {
        IriIndex::Index(i) => if i < ar.len() {
            Some(ar[i as int])
        } else {
            None
        },
        IriIndex::Iri(s) => Some(s),
    }
}

/// The blank node arena after inserting lexical form `s`.
pub open spec fn blank_arena_insert<B: IndexedBlankId>(ar: Seq<Seq<char>>, s: Seq<char>) -> Seq<
    Seq<char>,
> {
    if B::spec_classify_blank_id(s) is Some {
        ar
    } else if find_entry(ar, s) is Some {
        ar
    } else {
        ar.push(s)
    }
}

/// The identifier that inserting lexical blank node identifier `s` returns.
pub open spec fn blank_insert_id<B: IndexedBlankId>(ar: Seq<Seq<char>>, s: Seq<char>) -> B {
    match B::spec_classify_blank_id(s) {
        Some(v) => v,
        None => match find_entry(ar, s) {
            Some(k) => B::spec_from_blank_index(k as usize),
            None => B::spec_from_blank_index(ar.len() as usize),
        },
    }
}

/// Pure lookup of lexical blank node identifier `s`.
pub open spec fn blank_get<B: IndexedBlankId>(ar: Seq<Seq<char>>, s: Seq<char>) -> Option<B> {
    match B::spec_classify_blank_id(s) {
        Some(v) => Some(v),
        None => match find_entry(ar, s) {
            Some(k) => Some(B::spec_from_blank_index(k as usize)),
            None => None,
        },
    }
}

/// The lexical blank node identifier an identifier denotes against arena
/// `ar`.
pub open spec fn blank_resolve<B: IndexedBlankId>(ar: Seq<Seq<char>>, id: B) -> Option<Seq<char>> {
    match id.spec_blank_id_index() {
        BlankIdIndex::Index(i) => if i < ar.len() {
            Some(ar[i as int])
        } else {
            None
        },
        BlankIdIndex::BlankId(s) => Some(s),
    }
}

/// Vocabulary that stores IRIs and blank node identifiers with a unique
/// index.
///
/// IRIs and blank node identifiers are interned through two independent,
/// identically structured append-only arenas, so the two index spaces are
/// disjoint and both start at zero. The arena doubles as the lookup
/// structure: lookup is a linear scan over it.
pub struct IndexVocabulary<I = Index, B = Index> {
    allocated: Vec<IriBuf>,
    blank_allocated: Vec<BlankIdBuf>,
    types: core::marker::PhantomData<(I, B)>,
}

impl<I, B> IndexVocabulary<I, B> {
    /// The lexical IRIs interned so far, in insertion order.
    pub closed spec fn iris(&self) -> Seq<Seq<char>> {
        Seq::new(self.allocated@.len(), |k: int| self.allocated@[k]@)
    }

    /// The lexical blank node identifiers interned so far, in insertion
    /// order.
    pub closed spec fn blank_ids(&self) -> Seq<Seq<char>> {
        Seq::new(self.blank_allocated@.len(), |k: int| self.blank_allocated@[k]@)
    }
}

impl<I: IndexedIri, B: IndexedBlankId> IndexVocabulary<I, B> {
    /// Creates an empty vocabulary.
    pub fn new() -> (r: Self)
        ensures
            r.iris() == Seq::<Seq<char>>::empty(),
            r.blank_ids() == Seq::<Seq<char>>::empty(),
    {
        let r = IndexVocabulary {
            allocated: Vec::new(),
            blank_allocated: Vec::new(),
            types: core::marker::PhantomData,
        };
        proof {
            assert(r.iris() =~= Seq::<Seq<char>>::empty());
            assert(r.blank_ids() =~= Seq::<Seq<char>>::empty());
        }
        r
    }

    /// Interns a lexical IRI: returns its inline identifier without touching
    /// the arena where one exists, the already assigned index where the form
    /// is known, and a freshly appended index otherwise.
    pub fn insert(&mut self, iri: &IriBuf) -> (r: I)
        ensures
            final(self).iris() == iri_arena_insert::<I>(old(self).iris(), iri@),
            final(self).blank_ids() == old(self).blank_ids(),
            r == iri_insert_id::<I>(old(self).iris(), iri@),
            old(self).iris().is_prefix_of(final(self).iris()),
            iri_resolve::<I>(final(self).iris(), r) == Some(iri@),
    {
        match I::classify(iri) {
            Some(v) => {
                proof {
                    I::lemma_classify(iri@);
                    assert(self.iris().is_prefix_of(self.iris())) by {
                        assert(self.iris().subrange(0, self.iris().len() as int) =~= self.iris());
                    }
                }
                v
            },
            None => {
                let ghost ar = self.iris();
                let mut k: usize = 0;
                while k < self.allocated.len()
                    invariant
                        ar == self.iris(),
                        old(self) == self,
                        k <= self.allocated.len(),
                        I::spec_classify(iri@) is None,
                        forall|j: int| 0 <= j < k ==> ar[j] != iri@,
                    decreases self.allocated.len() - k,
                {
                    if self.allocated[k] == *iri {
                        proof {
                            lemma_find_entry_at(ar, iri@, k as int);
                            I::lemma_from_index(k);
                            assert(ar.is_prefix_of(ar)) by {
                                assert(ar.subrange(0, ar.len() as int) =~= ar);
                            }
                        }
                        return I::from_index(k);
                    }
                    k += 1;
                }
                proof {
                    lemma_find_entry_none(ar, iri@);
                }
                let idx = self.allocated.len();
                self.allocated.push(iri.clone());
                proof {
                    assert(self.iris() =~= ar.push(iri@));
                    I::lemma_from_index(idx);
                    assert(ar.is_prefix_of(ar.push(iri@))) by {
                        assert(ar.push(iri@).subrange(0, ar.len() as int) =~= ar);
                    }
                }
                I::from_index(idx)
            },
        }
    }

    /// Pure lookup of a lexical IRI; never allocates, and returns nothing for
    /// a form that was never inserted and has no inline identifier.
    pub fn get(&self, iri: &IriBuf) -> (r: Option<I>)
        ensures
            r == iri_get::<I>(self.iris(), iri@),
    {
        match I::classify(iri) {
            Some(v) => Some(v),
            None => {
                let ghost ar = self.iris();
                let mut k: usize = 0;
                while k < self.allocated.len()
                    invariant
                        ar == self.iris(),
                        k <= self.allocated.len(),
                        I::spec_classify(iri@) is None,
                        forall|j: int| 0 <= j < k ==> ar[j] != iri@,
                    decreases self.allocated.len() - k,
                {
                    if self.allocated[k] == *iri {
                        proof {
                            lemma_find_entry_at(ar, iri@, k as int);
                        }
                        return Some(I::from_index(k));
                    }
                    k += 1;
                }
                proof {
                    lemma_find_entry_none(ar, iri@);
                }
                None
            },
        }
    }

    /// Resolves an identifier back to its lexical IRI; nothing for an index
    /// this vocabulary never allocated.
    pub fn iri(&self, id: &I) -> (r: Option<IriBuf>)
        ensures
            match r {
                Some(i) => iri_resolve::<I>(self.iris(), *id) == Some(i@),
                None => iri_resolve::<I>(self.iris(), *id) is None,
            },
    {
        match id.index() {
            IriIndex::Index(i) => {
                if i < self.allocated.len() {
                    Some(self.allocated[i].clone())
                } else {
                    None
                }
            },
            IriIndex::Iri(b) => Some(b),
        }
    }

    /// Interns a lexical blank node identifier; the mirror of
    /// [`Self::insert`] on the blank node arena.
    pub fn insert_blank_id(&mut self, blank_id: &BlankIdBuf) -> (r: B)
        ensures
            final(self).blank_ids() == blank_arena_insert::<B>(old(self).blank_ids(), blank_id@),
            final(self).iris() == old(self).iris(),
            r == blank_insert_id::<B>(old(self).blank_ids(), blank_id@),
            old(self).blank_ids().is_prefix_of(final(self).blank_ids()),
            blank_resolve::<B>(final(self).blank_ids(), r) == Some(blank_id@),
    {
        match B::classify_blank_id(blank_id) {
            Some(v) => {
                proof {
                    B::lemma_classify_blank_id(blank_id@);
                    assert(self.blank_ids().is_prefix_of(self.blank_ids())) by {
                        assert(self.blank_ids().subrange(0, self.blank_ids().len() as int)
                            =~= self.blank_ids());
                    }
                }
                v
            },
            None => {
                let ghost ar = self.blank_ids();
                let mut k: usize = 0;
                while k < self.blank_allocated.len()
                    invariant
                        ar == self.blank_ids(),
                        old(self) == self,
                        k <= self.blank_allocated.len(),
                        B::spec_classify_blank_id(blank_id@) is None,
                        forall|j: int| 0 <= j < k ==> ar[j] != blank_id@,
                    decreases self.blank_allocated.len() - k,
                {
                    if self.blank_allocated[k] == *blank_id {
                        proof {
                            lemma_find_entry_at(ar, blank_id@, k as int);
                            B::lemma_from_blank_index(k);
                            assert(ar.is_prefix_of(ar)) by {
                                assert(ar.subrange(0, ar.len() as int) =~= ar);
                            }
                        }
                        return B::from_blank_index(k);
                    }
                    k += 1;
                }
                proof {
                    lemma_find_entry_none(ar, blank_id@);
                }
                let idx = self.blank_allocated.len();
                self.blank_allocated.push(blank_id.clone());
                proof {
                    assert(self.blank_ids() =~= ar.push(blank_id@));
                    B::lemma_from_blank_index(idx);
                    assert(ar.is_prefix_of(ar.push(blank_id@))) by {
                        assert(ar.push(blank_id@).subrange(0, ar.len() as int) =~= ar);
                    }
                }
                B::from_blank_index(idx)
            },
        }
    }

    /// Pure lookup of a lexical blank node identifier.
    pub fn get_blank_id(&self, blank_id: &BlankIdBuf) -> (r: Option<B>)
        ensures
            r == blank_get::<B>(self.blank_ids(), blank_id@),
    {
        match B::classify_blank_id(blank_id) {
            Some(v) => Some(v),
            None => {
                let ghost ar = self.blank_ids();
                let mut k: usize = 0;
                while k < self.blank_allocated.len()
                    invariant
                        ar == self.blank_ids(),
                        k <= self.blank_allocated.len(),
                        B::spec_classify_blank_id(blank_id@) is None,
                        forall|j: int| 0 <= j < k ==> ar[j] != blank_id@,
                    decreases self.blank_allocated.len() - k,
                {
                    if self.blank_allocated[k] == *blank_id {
                        proof {
                            lemma_find_entry_at(ar, blank_id@, k as int);
                        }
                        return Some(B::from_blank_index(k));
                    }
                    k += 1;
                }
                proof {
                    lemma_find_entry_none(ar, blank_id@);
                }
                None
            },
        }
    }

    /// Resolves an identifier back to its lexical blank node identifier.
    pub fn blank_id(&self, id: &B) -> (r: Option<BlankIdBuf>)
        ensures
            match r {
                Some(b) => blank_resolve::<B>(self.blank_ids(), *id) == Some(b@),
                None => blank_resolve::<B>(self.blank_ids(), *id) is None,
            },
    {
        match id.blank_id_index() {
            BlankIdIndex::Index(i) => {
                if i < self.blank_allocated.len() {
                    Some(self.blank_allocated[i].clone())
                } else {
                    None
                }
            },
            BlankIdIndex::BlankId(b) => Some(b),
        }
    }
}

impl<I: IndexedIri, B: IndexedBlankId> Default for IndexVocabulary<I, B> {
    fn default() -> (r: Self)
        ensures
            r.iris() == Seq::<Seq<char>>::empty(),
            r.blank_ids() == Seq::<Seq<char>>::empty(),
    {
        Self::new()
    }
}

/// Resolution is stable under growth: the arena is append-only, so an
/// identifier that resolves keeps resolving to the same lexical IRI after
/// any later insertions.
pub proof fn lemma_iri_resolve_stable<I: IndexedIri>(
    ar1: Seq<Seq<char>>,
    ar2: Seq<Seq<char>>,
    id: I,
)
    requires
        ar1.is_prefix_of(ar2),
        iri_resolve::<I>(ar1, id) is Some,
    ensures
        iri_resolve::<I>(ar2, id) == iri_resolve::<I>(ar1, id),
{
    match id.spec_index() {
        IriIndex::Index(i) => {
            assert(ar2.subrange(0, ar1.len() as int) == ar1);
            assert(ar2[i as int] == ar2.subrange(0, ar1.len() as int)[i as int]);
        },
        IriIndex::Iri(_) => {
        },
    }
}

/// Resolution is stable under growth; the mirror of
/// [`lemma_iri_resolve_stable`] for the blank node arena.
pub proof fn lemma_blank_resolve_stable<B: IndexedBlankId>(
    ar1: Seq<Seq<char>>,
    ar2: Seq<Seq<char>>,
    id: B,
)
    requires
        ar1.is_prefix_of(ar2),
        blank_resolve::<B>(ar1, id) is Some,
    ensures
        blank_resolve::<B>(ar2, id) == blank_resolve::<B>(ar1, id),
{
    match id.spec_blank_id_index() {
        BlankIdIndex::Index(i) => {
            assert(ar2.subrange(0, ar1.len() as int) == ar1);
            assert(ar2[i as int] == ar2.subrange(0, ar1.len() as int)[i as int]);
        },
        BlankIdIndex::BlankId(_) => {
        },
    }
}

/// Distinct lexical IRIs inserted into the same vocabulary receive distinct
/// identifiers: inserting `a` and then `b` with `a != b` never returns the
/// same identifier twice.
pub proof fn lemma_iri_insert_injective<I: IndexedIri>(ar: Seq<Seq<char>>, a: Seq<char>, b: Seq<
    char,
>)
    requires
        a != b,
        ar.len() < usize::MAX,
    ensures
        iri_insert_id::<I>(ar, a) != iri_insert_id::<I>(iri_arena_insert::<I>(ar, a), b),
{
    I::lemma_classify(a);
    I::lemma_classify(b);
    lemma_find_entry(ar, a);
    let ar2 = iri_arena_insert::<I>(ar, a);
    lemma_find_entry(ar2, b);
    let ia = iri_insert_id::<I>(ar, a);
    let ib = iri_insert_id::<I>(ar2, b);
    match I::spec_classify(a) {
        Some(va) => {
            match I::spec_classify(b) {
                Some(vb) => {
                    assert(va.spec_index() == IriIndex::<Seq<char>>::Iri(a));
                    assert(vb.spec_index() == IriIndex::<Seq<char>>::Iri(b));
                    assert(va != vb);
                },
                None => {
                    match find_entry(ar2, b) {
                        Some(k) => {
                            I::lemma_from_index(k as usize);
                        },
                        None => {
                            I::lemma_from_index(ar2.len() as usize);
                        },
                    }
                },
            }
        },
        None => {
            match I::spec_classify(b) {
                Some(vb) => {
                    match find_entry(ar, a) {
                        Some(k) => {
                            I::lemma_from_index(k as usize);
                        },
                        None => {
                            I::lemma_from_index(ar.len() as usize);
                        },
                    }
                },
                None => {
                    match find_entry(ar, a) {
                        Some(ka) => {
                            assert(ar2 == ar);
                            match find_entry(ar, b) {
                                Some(kb) => {
                                    assert(ar[ka] == a && ar[kb] == b);
                                    assert(ka != kb);
                                    I::lemma_from_index(ka as usize);
                                    I::lemma_from_index(kb as usize);
                                },
                                None => {
                                    I::lemma_from_index(ka as usize);
                                    I::lemma_from_index(ar.len() as usize);
                                },
                            }
                        },
                        None => {
                            assert(ar2 == ar.push(a));
                            I::lemma_from_index(ar.len() as usize);
                            match find_entry(ar2, b) {
                                Some(kb) => {
                                    assert(ar2[kb] == b);
                                    assert(kb != ar.len());
                                    I::lemma_from_index(kb as usize);
                                },
                                None => {
                                    I::lemma_from_index(ar2.len() as usize);
                                },
                            }
                        },
                    }
                },
            }
        },
    }
}

/// Inserting the same lexical IRI twice returns the identical identifier
/// both times and leaves the arena unchanged the second time.
pub proof fn lemma_iri_insert_idempotent<I: IndexedIri>(ar: Seq<Seq<char>>, s: Seq<char>)
    ensures
        iri_arena_insert::<I>(iri_arena_insert::<I>(ar, s), s) == iri_arena_insert::<I>(ar, s),
        iri_insert_id::<I>(iri_arena_insert::<I>(ar, s), s) == iri_insert_id::<I>(ar, s),
{
    if I::spec_classify(s) is None {
        match find_entry(ar, s) {
            Some(k) => {
            },
            None => {
                lemma_find_entry_push(ar, s);
            },
        }
    }
}

/// Resolving the identifier that insertion returned gives back exactly the
/// inserted lexical IRI.
pub proof fn lemma_iri_insert_resolve<I: IndexedIri>(ar: Seq<Seq<char>>, s: Seq<char>)
    requires
        ar.len() < usize::MAX,
    ensures
        iri_resolve::<I>(iri_arena_insert::<I>(ar, s), iri_insert_id::<I>(ar, s)) == Some(s),
{
    I::lemma_classify(s);
    match I::spec_classify(s) {
        Some(v) => {
        },
        None => {
            lemma_find_entry(ar, s);
            match find_entry(ar, s) {
                Some(k) => {
                    I::lemma_from_index(k as usize);
                },
                None => {
                    I::lemma_from_index(ar.len() as usize);
                    assert(ar.push(s)[ar.len() as int] == s);
                },
            }
        },
    }
}

/// Distinct lexical blank node identifiers inserted into the same vocabulary
/// receive distinct identifiers.
pub proof fn lemma_blank_insert_injective<B: IndexedBlankId>(
    ar: Seq<Seq<char>>,
    a: Seq<char>,
    b: Seq<char>,
)
    requires
        a != b,
        ar.len() < usize::MAX,
    ensures
        blank_insert_id::<B>(ar, a) != blank_insert_id::<B>(blank_arena_insert::<B>(ar, a), b),
{
    B::lemma_classify_blank_id(a);
    B::lemma_classify_blank_id(b);
    lemma_find_entry(ar, a);
    let ar2 = blank_arena_insert::<B>(ar, a);
    lemma_find_entry(ar2, b);
    match B::spec_classify_blank_id(a) {
        Some(va) => {
            match B::spec_classify_blank_id(b) {
                Some(vb) => {
                    assert(va.spec_blank_id_index() == BlankIdIndex::<Seq<char>>::BlankId(a));
                    assert(vb.spec_blank_id_index() == BlankIdIndex::<Seq<char>>::BlankId(b));
                    assert(va != vb);
                },
                None => {
                    match find_entry(ar2, b) {
                        Some(k) => {
                            B::lemma_from_blank_index(k as usize);
                        },
                        None => {
                            B::lemma_from_blank_index(ar2.len() as usize);
                        },
                    }
                },
            }
        },
        None => {
            match B::spec_classify_blank_id(b) {
                Some(vb) => {
                    match find_entry(ar, a) {
                        Some(k) => {
                            B::lemma_from_blank_index(k as usize);
                        },
                        None => {
                            B::lemma_from_blank_index(ar.len() as usize);
                        },
                    }
                },
                None => {
                    match find_entry(ar, a) {
                        Some(ka) => {
                            assert(ar2 == ar);
                            match find_entry(ar, b) {
                                Some(kb) => {
                                    assert(ar[ka] == a && ar[kb] == b);
                                    assert(ka != kb);
                                    B::lemma_from_blank_index(ka as usize);
                                    B::lemma_from_blank_index(kb as usize);
                                },
                                None => {
                                    B::lemma_from_blank_index(ka as usize);
                                    B::lemma_from_blank_index(ar.len() as usize);
                                },
                            }
                        },
                        None => {
                            assert(ar2 == ar.push(a));
                            B::lemma_from_blank_index(ar.len() as usize);
                            match find_entry(ar2, b) {
                                Some(kb) => {
                                    assert(ar2[kb] == b);
                                    assert(kb != ar.len());
                                    B::lemma_from_blank_index(kb as usize);
                                },
                                None => {
                                    B::lemma_from_blank_index(ar2.len() as usize);
                                },
                            }
                        },
                    }
                },
            }
        },
    }
}

/// Inserting the same lexical blank node identifier twice returns the
/// identical identifier both times and leaves the arena unchanged the second
/// time.
pub proof fn lemma_blank_insert_idempotent<B: IndexedBlankId>(ar: Seq<Seq<char>>, s: Seq<char>)
    ensures
        blank_arena_insert::<B>(blank_arena_insert::<B>(ar, s), s) == blank_arena_insert::<B>(
            ar,
            s,
        ),
        blank_insert_id::<B>(blank_arena_insert::<B>(ar, s), s) == blank_insert_id::<B>(ar, s),
{
    if B::spec_classify_blank_id(s) is None {
        match find_entry(ar, s) {
            Some(k) => {
            },
            None => {
                lemma_find_entry_push(ar, s);
            },
        }
    }
}

/// Resolving the identifier that insertion returned gives back exactly the
/// inserted lexical blank node identifier.
pub proof fn lemma_blank_insert_resolve<B: IndexedBlankId>(ar: Seq<Seq<char>>, s: Seq<char>)
    requires
        ar.len() < usize::MAX,
    ensures
        blank_resolve::<B>(blank_arena_insert::<B>(ar, s), blank_insert_id::<B>(ar, s)) == Some(s),
{
    B::lemma_classify_blank_id(s);
    match B::spec_classify_blank_id(s) {
        Some(v) => {
        },
        None => {
            lemma_find_entry(ar, s);
            match find_entry(ar, s) {
                Some(k) => {
                    B::lemma_from_blank_index(k as usize);
                },
                None => {
                    B::lemma_from_blank_index(ar.len() as usize);
                    assert(ar.push(s)[ar.len() as int] == s);
                },
            }
        },
    }
}

} // verus!
