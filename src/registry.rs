//! The data registry's file table as the chain keeps it: each url is
//! registered once, and file ids count up from one in order of registration.

use crate::primitives::{Address, U256};
use vstd::prelude::*;

verus! {

/// Registered files, by url and owner; the file at position `i` has id `i + 1`.
pub type RegistryView = Seq<(Seq<char>, Seq<u8>)>;

/// No url is registered twice.
pub open spec fn urls_unique(e: RegistryView) -> bool {
    forall|i: int, j: int| 0 <= i < j < e.len() ==> #[trigger] e[i].0 != #[trigger] e[j].0
}

/// Whether `url` is registered.
pub open spec fn has_url(e: RegistryView, url: Seq<char>) -> bool {
    exists|i: int| 0 <= i < e.len() && #[trigger] e[i].0 == url
}

/// The id of `url`, or zero where it is not registered.
pub open spec fn id_of_url(e: RegistryView, url: Seq<char>) -> nat {
    if has_url(e, url) {
        ((choose|i: int| 0 <= i < e.len() && #[trigger] e[i].0 == url) + 1) as nat
    } else {
        0
    }
}

/// Registering `url` for `owner`: the registry after, and the file's id. A
/// url already registered keeps its id and its entry.
pub open spec fn registry_add(e: RegistryView, url: Seq<char>, owner: Seq<u8>) -> (
    RegistryView,
    nat,
) {
    if has_url(e, url) {
        (e, id_of_url(e, url))
    } else {
        (e.push((url, owner)), e.len() + 1)
    }
}

/// The file table of a data registry.
#[derive(Debug, Clone)]
pub struct FileRegistry {
    pub files: Vec<(String, Address)>,
}

impl View for FileRegistry {
    type V = RegistryView;

    open spec fn view(&self) -> RegistryView {
        self.files@.map_values(|f: (String, Address)| (f.0@, f.1@))
    }
}

proof fn lemma_id_of_unique(e: RegistryView, url: Seq<char>, i: int)
    requires
        urls_unique(e),
        0 <= i < e.len(),
        e[i].0 == url,
    ensures
        id_of_url(e, url) == i + 1,
{
    let j = choose|j: int| 0 <= j < e.len() && #[trigger] e[j].0 == url;
    if j < i {
        assert(e[j].0 != e[i].0);
    } else if i < j {
        assert(e[i].0 != e[j].0);
    }
}

impl FileRegistry {
    pub open spec fn wf(&self) -> bool {
        urls_unique(self@)
    }

    /// An empty registry.
    pub fn new() -> (r: FileRegistry)
        ensures
            r.wf(),
            r@ == RegistryView::empty(),
    {
        let r = FileRegistry { files: Vec::new() };
        assert(r@ =~= RegistryView::empty());
        r
    }

    /// The position of `url`, where it is registered.
    fn position_of(&self, url: &String) -> (r: Option<usize>)
        requires
            self.wf(),
        ensures
            match r {
                Some(i) => i < self@.len() && self@[i as int].0 == url@ && id_of_url(self@, url@)
                    == i + 1,
                None => !has_url(self@, url@) && id_of_url(self@, url@) == 0,
            },
    {
        let mut i: usize = 0;
        while i < self.files.len()
            invariant
                i <= self.files@.len(),
                self@.len() == self.files@.len(),
                self.wf(),
                forall|j: int| 0 <= j < i ==> self@[j].0 != url@,
            decreases self.files@.len() - i,
        {
            assert(self@[i as int] == (self.files@[i as int].0@, self.files@[i as int].1@));
            if self.files[i].0 == *url {
                proof {
                    lemma_id_of_unique(self@, url@, i as int);
                }
                return Some(i);
            }
            i = i + 1;
        }
        None
    }

    /// Registers `url` for `owner` and returns its file id; a url that is
    /// already registered returns its existing id and changes nothing.
    pub fn add_file(&mut self, url: &String, owner: Address) -> (r: U256)
        requires
            old(self).wf(),
        ensures
            final(self).wf(),
            (final(self)@, r@) == registry_add(old(self)@, url@, owner@),
    {
        match self.position_of(url) {
            Some(i) => U256::from_u64_successor(i as u64),
            None => {
                let n = self.files.len();
                self.files.push((url.clone(), owner));
                let ghost e = old(self)@;
                assert(self@ =~= e.push((url@, owner@)));
                assert forall|i: int, j: int| 0 <= i < j < self@.len() implies #[trigger] self@[i].0
                    != #[trigger] self@[j].0 by {
                    if j == e.len() {
                        assert(e[i].0 != url@);
                    } else {
                        assert(e[i].0 != e[j].0);
                    }
                }
                U256::from_u64_successor(n as u64)
            },
        }
    }

    /// The id of `url`, or zero where it is not registered.
    pub fn get_file_id_by_url(&self, url: &String) -> (r: U256)
        requires
            self.wf(),
        ensures
            r@ == id_of_url(self@, url@),
    {
        match self.position_of(url) {
            Some(i) => U256::from_u64_successor(i as u64),
            None => U256::from_u64(0),
        }
    }

    /// How many files are registered.
    pub fn files_count(&self) -> (r: U256)
        ensures
            r@ == self@.len(),
    {
        U256::from_u64(self.files.len() as u64)
    }
}

/// What registering a url takes, given the id the registry holds for it.
#[derive(Debug, Clone, Copy)]
pub enum FileRegistration {
    /// The url is registered under this id; nothing is to be sent.
    Existing(U256),
    /// The url is new: register it, then read its id.
    Register,
}

/// Decides a registration from the id that the registry holds for the url
/// (zero where it holds none): an existing id is returned as it is, so that
/// registering a url twice gives the same id and leaves one entry.
pub fn plan_file_registration(existing_id: U256) -> (r: FileRegistration)
    ensures
        existing_id@ != 0 ==> r == FileRegistration::Existing(existing_id),
        existing_id@ == 0 ==> r is Register,
{
    if existing_id.is_zero() {
        FileRegistration::Register
    } else {
        FileRegistration::Existing(existing_id)
    }
}

/// Registering a url twice gives the same id both times and leaves one
/// entry for it; after the first registration the registry holds that id
/// for the url, so a registration planned from it returns the id.
pub proof fn lemma_add_file_is_idempotent(
    e: RegistryView,
    url: Seq<char>,
    owner: Seq<u8>,
    other_owner: Seq<u8>,
)
    requires
        urls_unique(e),
    ensures
        ({
            let (once, first) = registry_add(e, url, owner);
            let (twice, second) = registry_add(once, url, other_owner);
            first == second && twice == once && first >= 1 && id_of_url(once, url) == first
        }),
{
    let (once, first) = registry_add(e, url, owner);
    if has_url(e, url) {
        let i = choose|i: int| 0 <= i < e.len() && #[trigger] e[i].0 == url;
        lemma_id_of_unique(e, url, i);
    } else {
        let n = e.len() as int;
        assert(once[n].0 == url);
        assert(urls_unique(once)) by {
            assert forall|i: int, j: int| 0 <= i < j < once.len() implies #[trigger] once[i].0
                != #[trigger] once[j].0 by {
                if j == n {
                    assert(e[i].0 != url);
                } else {
                    assert(e[i].0 != e[j].0);
                }
            }
        }
        lemma_id_of_unique(once, url, n);
    }
}

} // verus!
