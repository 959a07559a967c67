//! One bank of categorized samples: eight buckets, one per real category.

use vstd::prelude::*;

use crate::category::bucket_for;
use crate::category::category_of;
use crate::category::tag_of;
use crate::click_type::ClickType;
use crate::pack::collect_sounds;
use crate::pack::ok_sounds;
use crate::pack::FileEntry;
use crate::pack::LeafDir;
use crate::pack::TopDir;
use crate::pack::MAX_PACK_FILES;
use crate::rng::random_below;
use crate::sample::SoundWrapper;

verus! {

/// The abstract contents of a bank: one sample sequence per category.
#[verifier::ext_equal]
pub struct BankView {
    pub hardclicks: Seq<SoundWrapper>,
    pub hardreleases: Seq<SoundWrapper>,
    pub clicks: Seq<SoundWrapper>,
    pub releases: Seq<SoundWrapper>,
    pub softclicks: Seq<SoundWrapper>,
    pub softreleases: Seq<SoundWrapper>,
    pub microclicks: Seq<SoundWrapper>,
    pub microreleases: Seq<SoundWrapper>,
}

impl BankView {
    pub open spec fn bucket(self, t: ClickType) -> Seq<SoundWrapper> {
        match t {
            ClickType::HardClick => self.hardclicks,
            ClickType::HardRelease => self.hardreleases,
            ClickType::Click => self.clicks,
            ClickType::Release => self.releases,
            ClickType::SoftClick => self.softclicks,
            ClickType::SoftRelease => self.softreleases,
            ClickType::MicroClick => self.microclicks,
            ClickType::MicroRelease => self.microreleases,
            ClickType::Skip => Seq::empty(),
        }
    }

    pub open spec fn with_bucket(self, t: ClickType, s: Seq<SoundWrapper>) -> BankView {
        match t {
            ClickType::HardClick => BankView { hardclicks: s, ..self },
            ClickType::HardRelease => BankView { hardreleases: s, ..self },
            ClickType::Click => BankView { clicks: s, ..self },
            ClickType::Release => BankView { releases: s, ..self },
            ClickType::SoftClick => BankView { softclicks: s, ..self },
            ClickType::SoftRelease => BankView { softreleases: s, ..self },
            ClickType::MicroClick => BankView { microclicks: s, ..self },
            ClickType::MicroRelease => BankView { microreleases: s, ..self },
            ClickType::Skip => self,
        }
    }

    pub open spec fn total(self) -> int {
        self.hardclicks.len() + self.hardreleases.len() + self.clicks.len()
            + self.releases.len() + self.softclicks.len() + self.softreleases.len()
            + self.microclicks.len() + self.microreleases.len() as int
    }

    /// Every bucket within the cap that a well-formed pack guarantees.
    pub open spec fn wf(self) -> bool {
        self.hardclicks.len() <= MAX_PACK_FILES && self.hardreleases.len() <= MAX_PACK_FILES
            && self.clicks.len() <= MAX_PACK_FILES && self.releases.len() <= MAX_PACK_FILES
            && self.softclicks.len() <= MAX_PACK_FILES && self.softreleases.len() <= MAX_PACK_FILES
            && self.microclicks.len() <= MAX_PACK_FILES
            && self.microreleases.len() <= MAX_PACK_FILES
    }

    pub open spec fn empty() -> BankView {
        BankView {
            hardclicks: Seq::empty(),
            hardreleases: Seq::empty(),
            clicks: Seq::empty(),
            releases: Seq::empty(),
            softclicks: Seq::empty(),
            softreleases: Seq::empty(),
            microclicks: Seq::empty(),
            microreleases: Seq::empty(),
        }
    }
}

/// The effect of reading one directory into a bank: if its name selects a
/// category, that bucket is replaced by the directory's decoded files;
/// otherwise the bank is untouched.
pub open spec fn load_dir_view(b: BankView, name: Seq<char>, files: Seq<FileEntry>) -> BankView {
    match bucket_for(tag_of(name)) {
        Some(t) => b.with_bucket(t, ok_sounds(files)),
        None => b,
    }
}

/// The effect of reading a list of directories in order; a later
/// directory of the same category overrides an earlier one.
pub open spec fn load_entries_view(
    b: BankView,
    entries: Seq<(Seq<char>, Seq<FileEntry>)>,
) -> BankView
    decreases entries.len(),
{
    if entries.len() == 0 {
        b
    } else {
        load_dir_view(
            load_entries_view(b, entries.drop_last()),
            entries.last().0,
            entries.last().1,
        )
    }
}

pub open spec fn leaf_entries(dirs: Seq<LeafDir>) -> Seq<(Seq<char>, Seq<FileEntry>)> {
    dirs.map_values(|d: LeafDir| (d.name@, d.files@))
}

pub open spec fn top_entries(dirs: Seq<TopDir>) -> Seq<(Seq<char>, Seq<FileEntry>)> {
    dirs.map_values(|d: TopDir| (d.name@, d.files@))
}

/// A bank of eight categorized sample buckets.
pub struct PlayerClicks {
    pub hardclicks: Vec<SoundWrapper>,
    pub hardreleases: Vec<SoundWrapper>,
    pub clicks: Vec<SoundWrapper>,
    pub releases: Vec<SoundWrapper>,
    pub softclicks: Vec<SoundWrapper>,
    pub softreleases: Vec<SoundWrapper>,
    pub microclicks: Vec<SoundWrapper>,
    pub microreleases: Vec<SoundWrapper>,
}

impl View for PlayerClicks {
    type V = BankView;

    open spec fn view(&self) -> BankView {
        BankView {
            hardclicks: self.hardclicks@,
            hardreleases: self.hardreleases@,
            clicks: self.clicks@,
            releases: self.releases@,
            softclicks: self.softclicks@,
            softreleases: self.softreleases@,
            microclicks: self.microclicks@,
            microreleases: self.microreleases@,
        }
    }
}

/// The first category in a preference list whose bucket is non-empty.
pub open spec fn first_nonempty(b: BankView, prefs: Seq<ClickType>) -> Option<ClickType>
    decreases prefs.len(),
{
    if prefs.len() == 0 {
        None
    } else if b.bucket(prefs[0]).len() > 0 {
        Some(prefs[0])
    } else {
        first_nonempty(b, prefs.drop_first())
    }
}

impl PlayerClicks {
    pub fn new() -> (r: Self)
        ensures
            r@ == BankView::empty(),
    {
        let r = PlayerClicks {
            hardclicks: Vec::new(),
            hardreleases: Vec::new(),
            clicks: Vec::new(),
            releases: Vec::new(),
            softclicks: Vec::new(),
            softreleases: Vec::new(),
            microclicks: Vec::new(),
            microreleases: Vec::new(),
        };
        proof {
            assert(r@ =~= BankView::empty());
        }
        r
    }

    /// Sum of the eight bucket sizes.
    pub fn num_sounds(&self) -> (n: usize)
        requires
            self@.wf(),
        ensures
            n == self@.total(),
    {
        self.hardclicks.len() + self.hardreleases.len() + self.clicks.len()
            + self.releases.len() + self.softclicks.len() + self.softreleases.len()
            + self.microclicks.len() + self.microreleases.len()
    }

    fn bucket_ref(&self, t: ClickType) -> (v: &Vec<SoundWrapper>)
        requires
            t != ClickType::Skip,
        ensures
            v@ == self@.bucket(t),
    {
        match t {
            ClickType::HardClick => &self.hardclicks,
            ClickType::HardRelease => &self.hardreleases,
            ClickType::Click => &self.clicks,
            ClickType::Release => &self.releases,
            ClickType::SoftClick => &self.softclicks,
            ClickType::SoftRelease => &self.softreleases,
            ClickType::MicroClick => &self.microclicks,
            ClickType::MicroRelease => &self.microreleases,
            ClickType::Skip => &self.hardclicks,
        }
    }

    /// Reads one directory: on a category-name match the bucket is
    /// replaced with the directory's decoded files.
    pub(crate) fn load_from_dir(&mut self, name: &str, files: &Vec<FileEntry>)
        requires
            files@.len() <= MAX_PACK_FILES,
        ensures
            final(self)@ == load_dir_view(old(self)@, name@, files@),
            old(self)@.wf() ==> final(self)@.wf(),
    {
        proof {
            crate::pack::lemma_ok_sounds_len(files@);
        }
        match category_of(name) {
            Some(t) => {
                let v = collect_sounds(files);
                match t {
                    ClickType::HardClick => self.hardclicks = v,
                    ClickType::HardRelease => self.hardreleases = v,
                    ClickType::Click => self.clicks = v,
                    ClickType::Release => self.releases = v,
                    ClickType::SoftClick => self.softclicks = v,
                    ClickType::SoftRelease => self.softreleases = v,
                    ClickType::MicroClick => self.microclicks = v,
                    ClickType::MicroRelease => self.microreleases = v,
                    ClickType::Skip => {},
                }
                proof {
                    assert(self@ =~= load_dir_view(old(self)@, name@, files@));
                }
            },
            None => {
                proof {
                    assert(self@ =~= load_dir_view(old(self)@, name@, files@));
                }
            },
        }
    }

    /// Reads each immediate subdirectory of a player directory in order.
    pub(crate) fn load_from_subdirs(&mut self, dirs: &Vec<LeafDir>)
        requires
            forall|i: int|
                0 <= i < dirs@.len() ==> #[trigger] dirs@[i].files@.len() <= MAX_PACK_FILES,
        ensures
            final(self)@ == load_entries_view(old(self)@, leaf_entries(dirs@)),
            old(self)@.wf() ==> final(self)@.wf(),
    {
        let ghost entries = leaf_entries(dirs@);
        let n = dirs.len();
        for i in 0..n
            invariant
                n == dirs@.len(),
                entries == leaf_entries(dirs@),
                forall|k: int|
                    0 <= k < dirs@.len() ==> #[trigger] dirs@[k].files@.len() <= MAX_PACK_FILES,
                self@ == load_entries_view(old(self)@, entries.take(i as int)),
                old(self)@.wf() ==> self@.wf(),
        {
            proof {
                assert(entries.take(i + 1).drop_last() =~= entries.take(i as int));
                assert(entries.take(i + 1).last() == entries[i as int]);
                assert(entries[i as int] == (dirs@[i as int].name@, dirs@[i as int].files@));
            }
            self.load_from_dir(dirs[i].name.as_str(), &dirs[i].files);
        }
        proof {
            assert(entries.take(n as int) =~= entries);
        }
    }

    /// Reads each immediate subdirectory of the pack root in order, for
    /// packs laid out without player folders.
    pub(crate) fn load_from_top_dirs(&mut self, dirs: &Vec<TopDir>)
        requires
            forall|i: int|
                0 <= i < dirs@.len() ==> #[trigger] dirs@[i].files@.len() <= MAX_PACK_FILES,
        ensures
            final(self)@ == load_entries_view(old(self)@, top_entries(dirs@)),
            old(self)@.wf() ==> final(self)@.wf(),
    {
        let ghost entries = top_entries(dirs@);
        let n = dirs.len();
        for i in 0..n
            invariant
                n == dirs@.len(),
                entries == top_entries(dirs@),
                forall|k: int|
                    0 <= k < dirs@.len() ==> #[trigger] dirs@[k].files@.len() <= MAX_PACK_FILES,
                self@ == load_entries_view(old(self)@, entries.take(i as int)),
                old(self)@.wf() ==> self@.wf(),
        {
            proof {
                assert(entries.take(i + 1).drop_last() =~= entries.take(i as int));
                assert(entries.take(i + 1).last() == entries[i as int]);
                assert(entries[i as int] == (dirs@[i as int].name@, dirs@[i as int].files@));
            }
            self.load_from_dir(dirs[i].name.as_str(), &dirs[i].files);
        }
        proof {
            assert(entries.take(n as int) =~= entries);
        }
    }

    /// The first category of the event's preference list whose bucket has
    /// a sample.
    pub open spec fn chosen_bucket(self, ct: ClickType) -> Option<ClickType> {
        first_nonempty(self@, ct.preferred_spec())
    }

    /// A uniformly chosen sample of the first non-empty bucket in the
    /// preference order of `click_type`, or `None` if all its buckets are
    /// empty.
    pub fn random_click(&self, click_type: ClickType) -> (r: Option<&SoundWrapper>)
        ensures
            match self.chosen_bucket(click_type) {
                Some(t) => {
                    &&& r is Some
                    &&& exists|k: int|
                        0 <= k < self@.bucket(t).len() && *r.unwrap() == self@.bucket(t)[k]
                },
                None => r is None,
            },
    {
        let preferred = click_type.preferred();
        let ghost prefs = click_type.preferred_spec();
        proof {
            assert(prefs.skip(0) =~= prefs);
        }
        for idx in 0..8usize
            invariant
                preferred@ == prefs,
                prefs.len() == 8,
                first_nonempty(self@, prefs.skip(idx as int)) == self.chosen_bucket(click_type),
        {
            let t = preferred[idx];
            proof {
                assert(prefs.skip(idx as int)[0] == prefs[idx as int]);
                assert(prefs.skip(idx as int).drop_first() =~= prefs.skip(idx + 1));
            }
            if !matches!(t, ClickType::Skip) {
                let v = self.bucket_ref(t);
                if v.len() > 0 {
                    let k = random_below(v.len() as u64) as usize;
                    return Some(&v[k]);
                }
            }
        }
        None
    }
}

} // verus!
