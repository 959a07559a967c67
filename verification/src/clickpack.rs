//! The clickpack: six banks, an optional ambient noise sample, and the
//! filesystem-layout conventions that fill them.

use vstd::prelude::*;

use crate::category::has_prefix;
use crate::category::spec_has_prefix;
use crate::category::str_eq;
use crate::click_type::Button;
use crate::click_type::ClickType;
use crate::pack::lemma_wf_pack_lists_bounded;
use crate::pack::FileEntry;
use crate::pack::PackDir;
use crate::pack::TopDir;
use crate::player_clicks::first_nonempty;
use crate::player_clicks::leaf_entries;
use crate::player_clicks::load_entries_view;
use crate::player_clicks::top_entries;
use crate::player_clicks::BankView;
use crate::player_clicks::PlayerClicks;
use crate::sample::SoundWrapper;

verus! {

/// Which bank(s) a load operation targets. `All` loads every bank from
/// its same-named subdirectory; any other value loads only that bank.
#[derive(Clone, Copy, PartialEq, Eq, Structural, Debug, Default)]
pub enum LoadClickpackFor {
    #[default]
    All,
    Player1,
    Player2,
    Left1,
    Right1,
    Left2,
    Right2,
}

impl LoadClickpackFor {
    /// `All` occupies index 0, so the bank index of a targeted load is
    /// this value minus one.
    pub fn to_index(self) -> (i: usize)
        ensures
            self == LoadClickpackFor::All ==> i == 0,
            self == LoadClickpackFor::Player1 ==> i == 1,
            self == LoadClickpackFor::Player2 ==> i == 2,
            self == LoadClickpackFor::Left1 ==> i == 3,
            self == LoadClickpackFor::Right1 ==> i == 4,
            self == LoadClickpackFor::Left2 ==> i == 5,
            self == LoadClickpackFor::Right2 ==> i == 6,
    {
        match self {
            LoadClickpackFor::All => 0,
            LoadClickpackFor::Player1 => 1,
            LoadClickpackFor::Player2 => 2,
            LoadClickpackFor::Left1 => 3,
            LoadClickpackFor::Right1 => 4,
            LoadClickpackFor::Left2 => 5,
            LoadClickpackFor::Right2 => 6,
        }
    }
}

/// Loading failed because the pack yielded no samples at all.
#[derive(Clone, Copy, PartialEq, Eq, Structural, Debug)]
pub enum LoadError {
    NoClicks,
}

/// The abstract contents of a clickpack.
#[verifier::ext_equal]
pub struct ClickpackView {
    pub player1: BankView,
    pub player2: BankView,
    pub left1: BankView,
    pub right1: BankView,
    pub left2: BankView,
    pub right2: BankView,
    pub noise: Option<SoundWrapper>,
    pub name: Seq<char>,
}

impl ClickpackView {
    /// Banks in their canonical index order
    /// `{player1, player2, left1, right1, left2, right2}`.
    pub open spec fn bank_at(self, i: int) -> BankView {
        if i == 0 {
            self.player1
        } else if i == 1 {
            self.player2
        } else if i == 2 {
            self.left1
        } else if i == 3 {
            self.right1
        } else if i == 4 {
            self.left2
        } else {
            self.right2
        }
    }

    pub open spec fn total(self) -> int {
        self.player1.total() + self.player2.total() + self.left1.total()
            + self.right1.total() + self.left2.total() + self.right2.total()
    }

    pub open spec fn platformer_total(self) -> int {
        self.left1.total() + self.right1.total() + self.left2.total() + self.right2.total()
    }

    pub open spec fn banks_wf(self) -> bool {
        self.player1.wf() && self.player2.wf() && self.left1.wf() && self.right1.wf()
            && self.left2.wf() && self.right2.wf()
    }

    pub open spec fn empty() -> ClickpackView {
        ClickpackView {
            player1: BankView::empty(),
            player2: BankView::empty(),
            left1: BankView::empty(),
            right1: BankView::empty(),
            left2: BankView::empty(),
            right2: BankView::empty(),
            noise: None,
            name: Seq::empty(),
        }
    }
}

// ---------------------------------------------------------------------------
// First-match searches over directory and file lists.
// ---------------------------------------------------------------------------

/// Index of the first directory with exactly this name.
pub open spec fn dir_index(dirs: Seq<TopDir>, nm: Seq<char>) -> Option<int>
    decreases dirs.len(),
{
    if dirs.len() == 0 {
        None
    } else if dirs[0].name@ == nm {
        Some(0)
    } else {
        match dir_index(dirs.drop_first(), nm) {
            Some(j) => Some(j + 1),
            None => None,
        }
    }
}

proof fn lemma_dir_index_at(dirs: Seq<TopDir>, nm: Seq<char>, i: int)
    requires
        0 <= i < dirs.len(),
        forall|k: int| 0 <= k < i ==> #[trigger] dirs[k].name@ != nm,
        dirs[i].name@ == nm,
    ensures
        dir_index(dirs, nm) == Some(i),
    decreases dirs.len(),
{
    if i > 0 {
        lemma_dir_index_at(dirs.drop_first(), nm, i - 1);
    }
}

proof fn lemma_dir_index_none(dirs: Seq<TopDir>, nm: Seq<char>)
    requires
        forall|k: int| 0 <= k < dirs.len() ==> #[trigger] dirs[k].name@ != nm,
    ensures
        dir_index(dirs, nm) is None,
    decreases dirs.len(),
{
    if dirs.len() > 0 {
        lemma_dir_index_none(dirs.drop_first(), nm);
    }
}

/// Finds the first immediate subdirectory with exactly this name.
fn find_top_dir(dirs: &Vec<TopDir>, name: &str) -> (r: Option<usize>)
    ensures
        match r {
            Some(d) => d < dirs@.len() && dir_index(dirs@, name@) == Some(d as int),
            None => dir_index(dirs@, name@) is None,
        },
{
    let n = dirs.len();
    for i in 0..n
        invariant
            n == dirs@.len(),
            forall|k: int| 0 <= k < i ==> #[trigger] dirs@[k].name@ != name@,
    {
        if str_eq(dirs[i].name.as_str(), name) {
            proof {
                lemma_dir_index_at(dirs@, name@, i as int);
            }
            return Some(i);
        }
    }
    proof {
        lemma_dir_index_none(dirs@, name@);
    }
    None
}

/// A file that may hold the pack's ambient noise sample.
pub open spec fn is_noise_name(s: Seq<char>) -> bool {
    spec_has_prefix(s, "noise"@) || spec_has_prefix(s, "whitenoise"@)
        || spec_has_prefix(s, "pcnoise"@) || spec_has_prefix(s, "background"@)
}

fn is_noise_file_name(name: &str) -> (r: bool)
    ensures
        r == is_noise_name(name@),
{
    has_prefix(name, "noise") || has_prefix(name, "whitenoise") || has_prefix(name, "pcnoise")
        || has_prefix(name, "background")
}

/// Index of the first noise-named file.
pub open spec fn noise_index(files: Seq<FileEntry>) -> Option<int>
    decreases files.len(),
{
    if files.len() == 0 {
        None
    } else if is_noise_name(files[0].name@) {
        Some(0)
    } else {
        match noise_index(files.drop_first()) {
            Some(j) => Some(j + 1),
            None => None,
        }
    }
}

proof fn lemma_noise_index_at(files: Seq<FileEntry>, i: int)
    requires
        0 <= i < files.len(),
        forall|k: int| 0 <= k < i ==> !is_noise_name(#[trigger] files[k].name@),
        is_noise_name(files[i].name@),
    ensures
        noise_index(files) == Some(i),
    decreases files.len(),
{
    if i > 0 {
        lemma_noise_index_at(files.drop_first(), i - 1);
    }
}

proof fn lemma_noise_index_none(files: Seq<FileEntry>)
    requires
        forall|k: int| 0 <= k < files.len() ==> !is_noise_name(#[trigger] files[k].name@),
    ensures
        noise_index(files) is None,
    decreases files.len(),
{
    if files.len() > 0 {
        lemma_noise_index_none(files.drop_first());
    }
}

/// The noise sample one directory offers: the first noise-named file's
/// sound — `None` when there is no such file, or when it failed to decode.
pub open spec fn dir_noise(files: Seq<FileEntry>) -> Option<SoundWrapper> {
    match noise_index(files) {
        Some(j) => files[j].sound,
        None => None,
    }
}

/// Finds the first noise-named file of a directory.
pub fn find_noise_file(files: &Vec<FileEntry>) -> (r: Option<&FileEntry>)
    ensures
        match noise_index(files@) {
            Some(j) => r is Some && *r.unwrap() == files@[j],
            None => r is None,
        },
{
    let n = files.len();
    for i in 0..n
        invariant
            n == files@.len(),
            forall|k: int| 0 <= k < i ==> !is_noise_name(#[trigger] files@[k].name@),
    {
        if is_noise_file_name(files[i].name.as_str()) {
            proof {
                lemma_noise_index_at(files@, i as int);
            }
            return Some(&files[i]);
        }
    }
    proof {
        lemma_noise_index_none(files@);
    }
    None
}

fn dir_noise_of(files: &Vec<FileEntry>) -> (r: Option<SoundWrapper>)
    ensures
        r == dir_noise(files@),
{
    match find_noise_file(files) {
        Some(f) => match &f.sound {
            Some(s) => Some(s.clone()),
            None => None,
        },
        None => None,
    }
}

// ---------------------------------------------------------------------------
// The load operation, at the view level.
// ---------------------------------------------------------------------------

/// The six canonical subdirectory names, in the order a load tries them.
pub open spec fn dirname_at(i: int) -> Seq<char> {
    if i == 0 {
        "player1"@
    } else if i == 1 {
        "player2"@
    } else if i == 2 {
        "left1"@
    } else if i == 3 {
        "left2"@
    } else if i == 4 {
        "right1"@
    } else {
        "right2"@
    }
}

fn dirname_str(i: usize) -> (s: &'static str)
    requires
        i < 6,
    ensures
        s@ == dirname_at(i as int),
{
    match i {
        0 => "player1",
        1 => "player2",
        2 => "left1",
        3 => "left2",
        4 => "right1",
        _ => "right2",
    }
}

/// One bank of an `All` load: the bank read from its same-named
/// subdirectory, or untouched when that subdirectory is absent.
pub open spec fn all_bank(b: BankView, pack: PackDir, nm: Seq<char>) -> BankView {
    match dir_index(pack.dirs@, nm) {
        Some(d) => load_entries_view(b, leaf_entries(pack.dirs@[d].subdirs@)),
        None => b,
    }
}

/// The noise search of an `All` load: each canonical subdirectory in
/// order, then the pack root; the first directory that yields a decoded
/// noise sample wins.
pub open spec fn noise_from_dirs(pack: PackDir, i: int) -> Option<SoundWrapper>
    decreases 6 - i,
{
    if i >= 6 {
        dir_noise(pack.files@)
    } else {
        let cur = match dir_index(pack.dirs@, dirname_at(i)) {
            Some(d) => dir_noise(pack.dirs@[d].files@),
            None => None,
        };
        if cur is Some {
            cur
        } else {
            noise_from_dirs(pack, i + 1)
        }
    }
}

/// One try of a targeted load: read the i-th canonical subdirectory into
/// the bank; if the bank is still empty, read the pack root's
/// subdirectories as categories.
pub open spec fn targeted_step(b: BankView, pack: PackDir, i: int) -> BankView {
    let b1 = match dir_index(pack.dirs@, dirname_at(i)) {
        Some(d) => load_entries_view(b, leaf_entries(pack.dirs@[d].subdirs@)),
        None => b,
    };
    if b1.total() == 0 {
        load_entries_view(b1, top_entries(pack.dirs@))
    } else {
        b1
    }
}

/// The targeted bank after the first `i` tries: starts cleared, and once
/// a try yields samples the later tries do nothing.
pub open spec fn targeted_upto(pack: PackDir, i: int) -> BankView
    decreases i,
{
    if i <= 0 {
        BankView::empty()
    } else {
        let b = targeted_upto(pack, i - 1);
        if b.total() != 0 {
            b
        } else {
            targeted_step(b, pack, i - 1)
        }
    }
}

/// Writes the targeted bank into its slot; `All` changes nothing.
pub open spec fn with_target_bank(
    v: ClickpackView,
    target: LoadClickpackFor,
    b: BankView,
) -> ClickpackView {
    match target {
        LoadClickpackFor::All => v,
        LoadClickpackFor::Player1 => ClickpackView { player1: b, ..v },
        LoadClickpackFor::Player2 => ClickpackView { player2: b, ..v },
        LoadClickpackFor::Left1 => ClickpackView { left1: b, ..v },
        LoadClickpackFor::Right1 => ClickpackView { right1: b, ..v },
        LoadClickpackFor::Left2 => ClickpackView { left2: b, ..v },
        LoadClickpackFor::Right2 => ClickpackView { right2: b, ..v },
    }
}

/// An `All` load: every bank from its same-named subdirectory; if that
/// leaves every bank empty the pack is taken to have no player folders
/// and the root's subdirectories are read into `player1`; noise is kept
/// if already set, else searched for.
pub open spec fn spec_load_all(v: ClickpackView, pack: PackDir) -> ClickpackView {
    let p1 = all_bank(v.player1, pack, "player1"@);
    let p2 = all_bank(v.player2, pack, "player2"@);
    let l1 = all_bank(v.left1, pack, "left1"@);
    let r1 = all_bank(v.right1, pack, "right1"@);
    let l2 = all_bank(v.left2, pack, "left2"@);
    let r2 = all_bank(v.right2, pack, "right2"@);
    let flat = p1.total() + p2.total() + l1.total() + r1.total() + l2.total() + r2.total() == 0;
    let p1b = if flat {
        load_entries_view(p1, top_entries(pack.dirs@))
    } else {
        p1
    };
    let noise = if v.noise is Some {
        v.noise
    } else {
        noise_from_dirs(pack, 0)
    };
    ClickpackView {
        player1: p1b,
        player2: p2,
        left1: l1,
        right1: r1,
        left2: l2,
        right2: r2,
        noise,
        name: pack.name@,
    }
}

/// A targeted load: the targeted bank is cleared and filled from the
/// first canonical subdirectory that yields samples (falling back to the
/// root); the other banks are preserved; if the whole pack then holds no
/// samples the root's subdirectories are read into `player1`; noise is
/// kept if already set, else searched for in the root only.
pub open spec fn spec_load_targeted(
    v: ClickpackView,
    pack: PackDir,
    target: LoadClickpackFor,
) -> ClickpackView {
    let v1 = with_target_bank(v, target, targeted_upto(pack, 6));
    let v2 = if v1.total() == 0 {
        ClickpackView { player1: load_entries_view(v1.player1, top_entries(pack.dirs@)), ..v1 }
    } else {
        v1
    };
    let noise = if v.noise is Some {
        v.noise
    } else {
        dir_noise(pack.files@)
    };
    ClickpackView { noise, name: pack.name@, ..v2 }
}

/// What loading a pack does to a clickpack's contents.
pub open spec fn spec_load(
    v: ClickpackView,
    pack: PackDir,
    target: LoadClickpackFor,
) -> ClickpackView {
    if target == LoadClickpackFor::All {
        spec_load_all(v, pack)
    } else {
        spec_load_targeted(v, pack, target)
    }
}

// ---------------------------------------------------------------------------
// Sample selection across banks.
// ---------------------------------------------------------------------------

/// The bank consultation order for each button/player combination.
pub open spec fn bank_order(button: Button, player2: bool) -> Seq<int> {
    match button {
        Button::Jump => if !player2 {
            seq![0, 1, 2, 3, 4, 5]
        } else {
            seq![1, 0, 4, 5, 2, 3]
        },
        Button::Left => if !player2 {
            seq![2, 3, 0, 4, 5, 1]
        } else {
            seq![4, 5, 1, 2, 3, 0]
        },
        Button::Right => if !player2 {
            seq![3, 2, 0, 5, 4, 1]
        } else {
            seq![5, 4, 1, 3, 2, 0]
        },
    }
}

/// The first bank in the order that has a bucket for the category's
/// preference list, with that bucket's category.
pub open spec fn pick_in_order(
    v: ClickpackView,
    order: Seq<int>,
    ct: ClickType,
) -> Option<(int, ClickType)>
    decreases order.len(),
{
    if order.len() == 0 {
        None
    } else {
        match first_nonempty(v.bank_at(order[0]), ct.preferred_spec()) {
            Some(t) => Some((order[0], t)),
            None => pick_in_order(v, order.drop_first(), ct),
        }
    }
}

/// Where `get_random_click` draws from: the bank and bucket that the
/// cross-bank fallback selects.
pub open spec fn spec_pick(
    v: ClickpackView,
    ct: ClickType,
    player2: bool,
    button: Button,
) -> Option<(int, ClickType)> {
    pick_in_order(v, bank_order(button, player2), ct)
}

/// The bucket that the cross-bank fallback draws from, as a sequence;
/// empty when the whole pack is empty.
pub open spec fn picked_sounds(
    v: ClickpackView,
    ct: ClickType,
    player2: bool,
    button: Button,
) -> Seq<SoundWrapper> {
    match spec_pick(v, ct, player2, button) {
        Some(p) => v.bank_at(p.0).bucket(p.1),
        None => Seq::empty(),
    }
}

proof fn lemma_first_nonempty_none(b: BankView, prefs: Seq<ClickType>)
    requires
        first_nonempty(b, prefs) is None,
    ensures
        forall|j: int| 0 <= j < prefs.len() ==> b.bucket(#[trigger] prefs[j]).len() == 0,
    decreases prefs.len(),
{
    if prefs.len() > 0 {
        lemma_first_nonempty_none(b, prefs.drop_first());
        assert forall|j: int| 0 <= j < prefs.len() implies b.bucket(
            #[trigger] prefs[j],
        ).len() == 0 by {
            if j > 0 {
                assert(prefs.drop_first()[j - 1] == prefs[j]);
            }
        }
    }
}

/// A bank that answers to no category of a real event's preference list
/// is empty altogether.
proof fn lemma_first_nonempty_none_total(b: BankView, ct: ClickType)
    requires
        ct != ClickType::Skip,
        first_nonempty(b, ct.preferred_spec()) is None,
    ensures
        b.total() == 0,
{
    lemma_first_nonempty_none(b, ct.preferred_spec());
    let prefs = ct.preferred_spec();
    assert(b.bucket(prefs[0]).len() == 0);
    assert(b.bucket(prefs[1]).len() == 0);
    assert(b.bucket(prefs[2]).len() == 0);
    assert(b.bucket(prefs[3]).len() == 0);
    assert(b.bucket(prefs[4]).len() == 0);
    assert(b.bucket(prefs[5]).len() == 0);
    assert(b.bucket(prefs[6]).len() == 0);
    assert(b.bucket(prefs[7]).len() == 0);
}

proof fn lemma_pick_in_order_none(v: ClickpackView, order: Seq<int>, ct: ClickType)
    requires
        pick_in_order(v, order, ct) is None,
    ensures
        forall|j: int|
            0 <= j < order.len() ==> first_nonempty(
                v.bank_at(#[trigger] order[j]),
                ct.preferred_spec(),
            ) is None,
    decreases order.len(),
{
    if order.len() > 0 {
        lemma_pick_in_order_none(v, order.drop_first(), ct);
        assert forall|j: int| 0 <= j < order.len() implies first_nonempty(
            v.bank_at(#[trigger] order[j]),
            ct.preferred_spec(),
        ) is None by {
            if j > 0 {
                assert(order.drop_first()[j - 1] == order[j]);
            }
        }
    }
}

/// In a clickpack with any sample at all, the cross-bank fallback always
/// finds one for a real event category.
pub proof fn lemma_pick_some(v: ClickpackView, ct: ClickType, player2: bool, button: Button)
    requires
        ct != ClickType::Skip,
        v.total() > 0,
    ensures
        spec_pick(v, ct, player2, button) is Some,
{
    let order = bank_order(button, player2);
    if spec_pick(v, ct, player2, button) is None {
        lemma_pick_in_order_none(v, order, ct);
        assert(first_nonempty(v.bank_at(order[0]), ct.preferred_spec()) is None);
        assert(first_nonempty(v.bank_at(order[1]), ct.preferred_spec()) is None);
        assert(first_nonempty(v.bank_at(order[2]), ct.preferred_spec()) is None);
        assert(first_nonempty(v.bank_at(order[3]), ct.preferred_spec()) is None);
        assert(first_nonempty(v.bank_at(order[4]), ct.preferred_spec()) is None);
        assert(first_nonempty(v.bank_at(order[5]), ct.preferred_spec()) is None);
        lemma_first_nonempty_none_total(v.player1, ct);
        lemma_first_nonempty_none_total(v.player2, ct);
        lemma_first_nonempty_none_total(v.left1, ct);
        lemma_first_nonempty_none_total(v.right1, ct);
        lemma_first_nonempty_none_total(v.left2, ct);
        lemma_first_nonempty_none_total(v.right2, ct);
    }
}

// ---------------------------------------------------------------------------
// The clickpack itself.
// ---------------------------------------------------------------------------

/// Six banks keyed by `{player1, player2, left1, right1, left2, right2}`,
/// an optional ambient noise sample, and cached totals.
pub struct Clickpack {
    player1: PlayerClicks,
    player2: PlayerClicks,
    left1: PlayerClicks,
    right1: PlayerClicks,
    left2: PlayerClicks,
    right2: PlayerClicks,
    noise: Option<SoundWrapper>,
    num_sounds: usize,
    has_platformer_sounds: bool,
    name: String,
}

impl View for Clickpack {
    type V = ClickpackView;

    closed spec fn view(&self) -> ClickpackView {
        ClickpackView {
            player1: self.player1@,
            player2: self.player2@,
            left1: self.left1@,
            right1: self.right1@,
            left2: self.left2@,
            right2: self.right2@,
            noise: self.noise,
            name: self.name@,
        }
    }
}

impl Clickpack {
    /// The cached totals agree with the banks, and every bucket is within
    /// the pack cap.
    pub closed spec fn wf(self) -> bool {
        &&& self@.banks_wf()
        &&& self.num_sounds == self@.total()
        &&& self.has_platformer_sounds == (self@.platformer_total() > 0)
    }

    /// Well-formedness keeps every bucket within the pack cap and the
    /// cached total equal to the banks' sum.
    pub proof fn lemma_wf_banks(&self)
        requires
            self.wf(),
        ensures
            self@.banks_wf(),
    {
    }

    pub fn new() -> (r: Self)
        ensures
            r@ == ClickpackView::empty(),
            r.wf(),
    {
        let r = Clickpack {
            player1: PlayerClicks::new(),
            player2: PlayerClicks::new(),
            left1: PlayerClicks::new(),
            right1: PlayerClicks::new(),
            left2: PlayerClicks::new(),
            right2: PlayerClicks::new(),
            noise: None,
            num_sounds: 0,
            has_platformer_sounds: false,
            name: String::new(),
        };
        proof {
            assert(r@ =~= ClickpackView::empty());
        }
        r
    }

    /// Read access to one bank, in canonical index order.
    pub fn bank(&self, i: usize) -> (b: &PlayerClicks)
        requires
            i < 6,
        ensures
            b@ == self@.bank_at(i as int),
    {
        match i {
            0 => &self.player1,
            1 => &self.player2,
            2 => &self.left1,
            3 => &self.right1,
            4 => &self.left2,
            _ => &self.right2,
        }
    }

    /// The ambient noise sample, if one was found.
    pub fn noise(&self) -> (n: &Option<SoundWrapper>)
        ensures
            *n == self@.noise,
    {
        &self.noise
    }

    #[verifier::when_used_as_spec(spec_has_noise)]
    pub fn has_noise(&self) -> (r: bool)
        ensures
            r == self.spec_has_noise(),
    {
        self.noise.is_some()
    }

    pub open spec fn spec_has_noise(&self) -> bool {
        self@.noise is Some
    }

    /// The display name recorded at load: the pack directory's name.
    pub fn name(&self) -> (n: &String)
        ensures
            n@ == self@.name,
    {
        &self.name
    }

    /// Whether any of the four platformer banks holds a sample.
    pub fn has_platformer_sounds(&self) -> (r: bool)
        requires
            self.wf(),
        ensures
            r == (self@.platformer_total() > 0),
    {
        self.has_platformer_sounds
    }

    fn banks_total(&self) -> (n: usize)
        requires
            self@.banks_wf(),
        ensures
            n == self@.total(),
    {
        self.player1.num_sounds() + self.player2.num_sounds() + self.left1.num_sounds()
            + self.right1.num_sounds() + self.left2.num_sounds() + self.right2.num_sounds()
    }

    /// The total number of samples across all six banks.
    pub fn num_sounds(&self) -> (n: usize)
        requires
            self@.banks_wf(),
        ensures
            n == self@.total(),
    {
        self.banks_total()
    }

    /// Rebuilds this clickpack from a scanned pack directory.
    ///
    /// With `All` every bank is read from its same-named subdirectory; a
    /// targeted value clears and refills only that bank and leaves the
    /// others and the noise sample alone. A pack without player folders
    /// falls back to reading the root's subdirectories as categories.
    /// Fails with `NoClicks` exactly when the resulting pack holds no
    /// samples at all.
    /// The bank-and-noise part of an `All` load.
    #[verifier::rlimit(100)]
    #[verifier::spinoff_prover]
    fn load_all_banks(&mut self, pack: &PackDir)
        requires
            pack.wf(),
            old(self)@.banks_wf(),
        ensures
            final(self)@.player1 == spec_load_all(old(self)@, *pack).player1,
            final(self)@.player2 == spec_load_all(old(self)@, *pack).player2,
            final(self)@.left1 == spec_load_all(old(self)@, *pack).left1,
            final(self)@.right1 == spec_load_all(old(self)@, *pack).right1,
            final(self)@.left2 == spec_load_all(old(self)@, *pack).left2,
            final(self)@.right2 == spec_load_all(old(self)@, *pack).right2,
            final(self)@.noise == spec_load_all(old(self)@, *pack).noise,
            final(self)@.name == old(self)@.name,
            final(self)@.banks_wf(),
    {
        proof {
            lemma_wf_pack_lists_bounded(*pack);
        }
        if let Some(d) = find_top_dir(&pack.dirs, "player1") {
            self.player1.load_from_subdirs(&pack.dirs[d].subdirs);
        }
        if let Some(d) = find_top_dir(&pack.dirs, "player2") {
            self.player2.load_from_subdirs(&pack.dirs[d].subdirs);
        }
        if let Some(d) = find_top_dir(&pack.dirs, "left1") {
            self.left1.load_from_subdirs(&pack.dirs[d].subdirs);
        }
        if let Some(d) = find_top_dir(&pack.dirs, "left2") {
            self.left2.load_from_subdirs(&pack.dirs[d].subdirs);
        }
        if let Some(d) = find_top_dir(&pack.dirs, "right1") {
            self.right1.load_from_subdirs(&pack.dirs[d].subdirs);
        }
        if let Some(d) = find_top_dir(&pack.dirs, "right2") {
            self.right2.load_from_subdirs(&pack.dirs[d].subdirs);
        }
        if self.banks_total() == 0 {
            self.player1.load_from_top_dirs(&pack.dirs);
        }
        if self.noise.is_none() {
            self.noise = find_pack_noise(pack);
        }
    }

    /// The bank-and-noise part of a targeted load.
    #[verifier::rlimit(100)]
    #[verifier::spinoff_prover]
    fn load_targeted_banks(&mut self, pack: &PackDir, load_for: LoadClickpackFor)
        requires
            pack.wf(),
            old(self)@.banks_wf(),
            load_for != LoadClickpackFor::All,
        ensures
            final(self)@.player1 == spec_load_targeted(old(self)@, *pack, load_for).player1,
            final(self)@.player2 == spec_load_targeted(old(self)@, *pack, load_for).player2,
            final(self)@.left1 == spec_load_targeted(old(self)@, *pack, load_for).left1,
            final(self)@.right1 == spec_load_targeted(old(self)@, *pack, load_for).right1,
            final(self)@.left2 == spec_load_targeted(old(self)@, *pack, load_for).left2,
            final(self)@.right2 == spec_load_targeted(old(self)@, *pack, load_for).right2,
            final(self)@.noise == spec_load_targeted(old(self)@, *pack, load_for).noise,
            final(self)@.name == old(self)@.name,
            final(self)@.banks_wf(),
    {
        proof {
            lemma_wf_pack_lists_bounded(*pack);
        }
        let mut bank = PlayerClicks::new();
        for i in 0..6usize
            invariant
                pack.wf(),
                bank@ == targeted_upto(*pack, i as int),
                bank@.wf(),
        {
            proof {
                lemma_wf_pack_lists_bounded(*pack);
            }
            if bank.num_sounds() == 0 {
                let nm = dirname_str(i);
                if let Some(d) = find_top_dir(&pack.dirs, nm) {
                    bank.load_from_subdirs(&pack.dirs[d].subdirs);
                }
                if bank.num_sounds() == 0 {
                    bank.load_from_top_dirs(&pack.dirs);
                }
            }
        }
        match load_for {
            LoadClickpackFor::Player1 => self.player1 = bank,
            LoadClickpackFor::Player2 => self.player2 = bank,
            LoadClickpackFor::Left1 => self.left1 = bank,
            LoadClickpackFor::Right1 => self.right1 = bank,
            LoadClickpackFor::Left2 => self.left2 = bank,
            LoadClickpackFor::Right2 => self.right2 = bank,
            LoadClickpackFor::All => {},
        }
        if self.banks_total() == 0 {
            self.player1.load_from_top_dirs(&pack.dirs);
        }
        if self.noise.is_none() {
            self.noise = dir_noise_of(&pack.files);
        }
    }

    #[verifier::rlimit(100)]
    #[verifier::spinoff_prover]
    pub fn load_from_path(&mut self, pack: &PackDir, load_for: LoadClickpackFor) -> (r: Result<
        (),
        LoadError,
    >)
        requires
            pack.wf(),
            old(self)@.banks_wf(),
        ensures
            final(self)@ == spec_load(old(self)@, *pack, load_for),
            final(self).wf(),
            final(self)@.banks_wf(),
            r is Ok <==> final(self)@.total() > 0,
            r is Err ==> r == Err::<(), LoadError>(LoadError::NoClicks),
    {
        if matches!(load_for, LoadClickpackFor::All) {
            self.load_all_banks(pack);
        } else {
            self.load_targeted_banks(pack, load_for);
        }
        self.name = pack.name.clone();
        let total = self.banks_total();
        self.num_sounds = total;
        let p = self.left1.num_sounds() + self.right1.num_sounds() + self.left2.num_sounds()
            + self.right2.num_sounds();
        self.has_platformer_sounds = p != 0;
        proof {
            assert(self@ =~= spec_load(old(self)@, *pack, load_for));
        }
        if total != 0 {
            Ok(())
        } else {
            Err(LoadError::NoClicks)
        }
    }

    /// A sample for the event, through the cross-bank fallback: banks in
    /// the order of `bank_order`, each consulted through its preference
    /// list; the result is a uniformly chosen element of the first
    /// non-empty bucket found.
    pub fn get_random_click(&self, typ: ClickType, player2: bool, button: Button) -> (r:
        &SoundWrapper)
        requires
            typ != ClickType::Skip,
            self@.total() > 0,
        ensures
            spec_pick(self@, typ, player2, button) is Some,
            exists|k: int|
                0 <= k < picked_sounds(self@, typ, player2, button).len() && *r == picked_sounds(
                    self@,
                    typ,
                    player2,
                    button,
                )[k],
    {
        let order: [usize; 6] = match button {
            Button::Jump => if !player2 {
                [0, 1, 2, 3, 4, 5]
            } else {
                [1, 0, 4, 5, 2, 3]
            },
            Button::Left => if !player2 {
                [2, 3, 0, 4, 5, 1]
            } else {
                [4, 5, 1, 2, 3, 0]
            },
            Button::Right => if !player2 {
                [3, 2, 0, 5, 4, 1]
            } else {
                [5, 4, 1, 3, 2, 0]
            },
        };
        let ghost gorder = bank_order(button, player2);
        proof {
            assert(gorder.len() == 6);
            assert(forall|j: int| 0 <= j < 6 ==> #[trigger] order@[j] == gorder[j]);
            assert(gorder.skip(0) =~= gorder);
        }
        for j in 0..6usize
            invariant
                order@.len() == 6,
                gorder == bank_order(button, player2),
                gorder.len() == 6,
                forall|k: int| 0 <= k < 6 ==> #[trigger] order@[k] == gorder[k],
                forall|k: int| 0 <= k < 6 ==> 0 <= #[trigger] gorder[k] < 6,
                pick_in_order(self@, gorder.skip(j as int), typ) == spec_pick(
                    self@,
                    typ,
                    player2,
                    button,
                ),
        {
            proof {
                assert(gorder.skip(j as int)[0] == gorder[j as int]);
                assert(gorder.skip(j as int).drop_first() =~= gorder.skip(j + 1));
            }
            let b = self.bank(order[j]);
            match b.random_click(typ) {
                Some(s) => {
                    proof {
                        let go = gorder.skip(j as int);
                        let fb = first_nonempty(self@.bank_at(go[0]), typ.preferred_spec());
                        assert(b@ == self@.bank_at(go[0]));
                        assert(fb is Some);
                        let t = fb->Some_0;
                        assert(pick_in_order(self@, go, typ) == Some((go[0], t)));
                        assert(spec_pick(self@, typ, player2, button) == Some((go[0], t)));
                        assert(exists|k: int|
                            0 <= k < b@.bucket(t).len() && *s == b@.bucket(t)[k]);
                        let k0 = choose|k: int|
                            0 <= k < b@.bucket(t).len() && *s == b@.bucket(t)[k];
                        assert(0 <= k0 < picked_sounds(self@, typ, player2, button).len());
                        assert(*s == picked_sounds(self@, typ, player2, button)[k0]);
                    }
                    return s;
                },
                None => {},
            }
        }
        proof {
            lemma_pick_some(self@, typ, player2, button);
            assert(gorder.skip(6) =~= Seq::<int>::empty());
            assert(false);
        }
        vstd::pervasive::unreached()
    }
}

/// The `All`-mode noise search over the canonical subdirectories, then
/// the root.
fn find_pack_noise(pack: &PackDir) -> (r: Option<SoundWrapper>)
    ensures
        r == noise_from_dirs(*pack, 0),
{
    for i in 0..6usize
        invariant
            noise_from_dirs(*pack, i as int) == noise_from_dirs(*pack, 0),
    {
        let nm = dirname_str(i);
        if let Some(d) = find_top_dir(&pack.dirs, nm) {
            let cur = dir_noise_of(&pack.dirs[d].files);
            if cur.is_some() {
                return cur;
            }
        }
    }
    dir_noise_of(&pack.files)
}

} // verus!
