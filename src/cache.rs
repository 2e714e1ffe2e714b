//! The icon cache: decoded icons by (icon name, clock background), filled
//! once per configuration. Clock faces in it are redrawn when the minute
//! changes; other entries never change while the cache lives.
use crate::config::{
    key_clock_background, key_status_command, key_status_icon_off, key_status_icon_on, opt_view,
    status_icon_spec, trimmed_non_empty_spec, StreamrsConfig, StreamrsKeyBinding,
};
use crate::keystate::LoadedKeyImage;
use crate::paging::{page_count_spec, STREAMDECK_KEY_COUNT};
use crate::plan::{page_count, status_command_spec, NEXT_PAGE_ICON, PREVIOUS_PAGE_ICON};
use vstd::prelude::*;

verus! {

/// Cache key: icon name and clock background.
#[derive(Clone, Debug, PartialEq, Eq, Hash)]
pub struct ImageCacheKey {
    pub icon: String,
    pub clock_background: Option<String>,
}

impl ImageCacheKey {
    pub open spec fn view(&self) -> (Seq<char>, Option<Seq<char>>) {
        (self.icon@, opt_view(self.clock_background))
    }
}

pub fn image_cache_key(icon: &str, clock_background: Option<&str>) -> (r: ImageCacheKey)
    ensures
        r.icon@ == icon@,
        opt_view(r.clock_background) == match clock_background {
            Some(b) => Some(b@),
            None => None,
        },
{
    ImageCacheKey {
        icon: String::from_str(icon),
        clock_background: match clock_background {
            Some(b) => Some(String::from_str(b)),
            None => None,
        },
    }
}

/// Position of the first entry for key `k`, looking from `i` on.
pub open spec fn find_from(
    entries: Seq<(ImageCacheKey, LoadedKeyImage)>,
    k: (Seq<char>, Option<Seq<char>>),
    i: int,
) -> Option<int>
    decreases entries.len() - i,
{
    if i < 0 || i >= entries.len() {
        None
    } else if entries[i].0.view() == k {
        Some(i)
    } else {
        find_from(entries, k, i + 1)
    }
}

proof fn lemma_find_bounds(
    entries: Seq<(ImageCacheKey, LoadedKeyImage)>,
    k: (Seq<char>, Option<Seq<char>>),
    i: int,
)
    requires
        0 <= i,
    ensures
        find_from(entries, k, i) matches Some(j) ==> i <= j < entries.len() && entries[j].0.view()
            == k,
        find_from(entries, k, i) is None ==> forall|j: int|
            i <= j < entries.len() ==> entries[j].0.view() != k,
    decreases entries.len() - i,
{
    if i < entries.len() && entries[i].0.view() != k {
        lemma_find_bounds(entries, k, i + 1);
    }
}

proof fn lemma_find_push(
    entries: Seq<(ImageCacheKey, LoadedKeyImage)>,
    e: (ImageCacheKey, LoadedKeyImage),
    k: (Seq<char>, Option<Seq<char>>),
    i: int,
)
    requires
        0 <= i <= entries.len(),
    ensures
        find_from(entries.push(e), k, i) == if find_from(entries, k, i) is Some {
            find_from(entries, k, i)
        } else if e.0.view() == k {
            Some(entries.len() as int)
        } else {
            None::<int>
        },
    decreases entries.len() - i,
{
    let t = entries.push(e);
    if i < entries.len() {
        assert(t[i] == entries[i]);
        lemma_find_push(entries, e, k, i + 1);
    } else {
        assert(t[i] == e);
        assert(find_from(t, k, i + 1) is None);
    }
}

proof fn lemma_find_same_keys(
    s: Seq<(ImageCacheKey, LoadedKeyImage)>,
    t: Seq<(ImageCacheKey, LoadedKeyImage)>,
    k: (Seq<char>, Option<Seq<char>>),
    i: int,
)
    requires
        0 <= i,
        s.len() == t.len(),
        forall|m: int| 0 <= m < s.len() ==> s[m].0 == t[m].0,
    ensures
        find_from(s, k, i) == find_from(t, k, i),
    decreases s.len() - i,
{
    if i < s.len() {
        lemma_find_same_keys(s, t, k, i + 1);
    }
}

/// What a cache lookup asks the caller to do.
#[derive(Clone, Debug, PartialEq, Eq)]
pub enum CacheLookup {
    /// The cached entry can be used as it is.
    Fresh,
    /// A cached clock face shows another time: redraw it over this
    /// background and store it with `refresh_clock`.
    StaleClock { background_name: Option<String> },
    /// Nothing is cached: load the icon and `insert` it.
    Missing,
}

/// Decoded icons by key.
pub struct ImageCache {
    entries: Vec<(ImageCacheKey, LoadedKeyImage)>,
}

impl ImageCache {
    /// The icon cached for key `k`, if any.
    pub closed spec fn lookup(&self, k: (Seq<char>, Option<Seq<char>>)) -> Option<LoadedKeyImage> {
        match find_from(self.entries@, k, 0) {
            Some(i) => Some(self.entries@[i].1),
            None => None,
        }
    }

    /// Number of distinct keys cached.
    pub closed spec fn size(&self) -> nat {
        self.entries@.len()
    }

    /// Every entry is well formed and has a key of its own.
    pub closed spec fn wf(&self) -> bool {
        &&& forall|i: int| 0 <= i < self.entries@.len() ==> (#[trigger] self.entries@[i]).1.wf()
        &&& forall|i: int, j: int|
            0 <= i < j < self.entries@.len() ==> (#[trigger] self.entries@[i]).0.view()
                != (#[trigger] self.entries@[j]).0.view()
    }

    pub fn new() -> (r: Self)
        ensures
            r.wf(),
            r.size() == 0,
            forall|k: (Seq<char>, Option<Seq<char>>)| r.lookup(k) is None,
    {
        ImageCache { entries: Vec::new() }
    }

    pub fn len(&self) -> (r: usize)
        ensures
            r == self.size(),
    {
        self.entries.len()
    }

    /// Position of the entry for `key`, if cached.
    fn find(&self, key: &ImageCacheKey) -> (r: Option<usize>)
        ensures
            r matches Some(i) ==> find_from(self.entries@, key.view(), 0) == Some(i as int) && i
                < self.entries@.len(),
            r is None ==> find_from(self.entries@, key.view(), 0) is None,
    {
        let mut i: usize = 0;
        while i < self.entries.len()
            invariant
                i <= self.entries@.len(),
                find_from(self.entries@, key.view(), 0) == find_from(
                    self.entries@,
                    key.view(),
                    i as int,
                ),
            decreases self.entries@.len() - i,
        {
            if same_key(&self.entries[i].0, key) {
                return Some(i);
            }
            i = i + 1;
        }
        None
    }

    pub fn contains_key(&self, key: &ImageCacheKey) -> (r: bool)
        ensures
            r == self.lookup(key.view()) is Some,
    {
        self.find(key).is_some()
    }

    /// The icon cached for `key`, if any.
    pub fn get(&self, key: &ImageCacheKey) -> (r: Option<&LoadedKeyImage>)
        ensures
            match r {
                Some(v) => self.lookup(key.view()) == Some(*v),
                None => self.lookup(key.view()) is None,
            },
    {
        match self.find(key) {
            Some(i) => Some(&self.entries[i].1),
            None => None,
        }
    }

    /// Decides how a request for `key` is served when the time reads `text`:
    /// a cached clock face that shows another text must be redrawn, any
    /// other cached entry is used as it is, and a missing one is loaded.
    pub fn lookup_action(&self, key: &ImageCacheKey, text: &str) -> (r: CacheLookup)
        ensures
            match self.lookup(key.view()) {
                None => r == CacheLookup::Missing,
                Some(LoadedKeyImage::Clock { current_text, background_name, .. }) => if
                current_text@ != text@ {
                    r == CacheLookup::StaleClock { background_name }
                } else {
                    r == CacheLookup::Fresh
                },
                Some(_) => r == CacheLookup::Fresh,
            },
    {
        let shown = String::from_str(text);
        match self.find(key) {
            None => CacheLookup::Missing,
            Some(i) => match &self.entries[i].1 {
                LoadedKeyImage::Clock { current_text, background_name, .. } => {
                    if *current_text != shown {
                        CacheLookup::StaleClock { background_name: clone_opt(background_name) }
                    } else {
                        CacheLookup::Fresh
                    }
                },
                _ => CacheLookup::Fresh,
            },
        }
    }

    /// Caches `loaded` under `key`, which is not cached yet.
    pub fn insert(&mut self, key: ImageCacheKey, loaded: LoadedKeyImage)
        requires
            old(self).wf(),
            old(self).lookup(key.view()) is None,
            loaded.wf(),
        ensures
            final(self).wf(),
            final(self).size() == old(self).size() + 1,
            forall|k: (Seq<char>, Option<Seq<char>>)|
                #![trigger final(self).lookup(k)]
                final(self).lookup(k) == if k == key.view() {
                    Some(loaded)
                } else {
                    old(self).lookup(k)
                },
    {
        let ghost s = self.entries@;
        let ghost e = (key, loaded);
        proof {
            lemma_find_bounds(s, key.view(), 0);
        }
        self.entries.push((key, loaded));
        proof {
            assert forall|k: (Seq<char>, Option<Seq<char>>)|
                #![trigger find_from(self.entries@, k, 0)]
                find_from(self.entries@, k, 0) == if find_from(s, k, 0) is Some {
                    find_from(s, k, 0)
                } else if e.0.view() == k {
                    Some(s.len() as int)
                } else {
                    None::<int>
                } by {
                lemma_find_push(s, e, k, 0);
            }
            assert forall|k: (Seq<char>, Option<Seq<char>>)|
                #![trigger self.lookup(k)]
                self.lookup(k) == if k == e.0.view() {
                    Some(e.1)
                } else {
                    lookup_in(s, k)
                } by {
                lemma_find_bounds(s, k, 0);
                if let Some(j) = find_from(s, k, 0) {
                    assert(self.entries@[j] == s[j]);
                }
            }
        }
    }

    /// Redraws the clock face cached under `key` when the time now reads
    /// `text` and the cached face shows another text. `render` is the face
    /// drawn for `text`, or `None` when drawing failed.
    pub fn refresh_clock(&mut self, key: &ImageCacheKey, text: &str, render: Option<Vec<u8>>)
        requires
            old(self).wf(),
        ensures
            final(self).wf(),
            final(self).size() == old(self).size(),
            forall|k: (Seq<char>, Option<Seq<char>>)|
                k != key.view() ==> #[trigger] final(self).lookup(k) == old(self).lookup(k),
            match old(self).lookup(key.view()) {
                Some(LoadedKeyImage::Clock { image, current_text, background_name }) => if text@
                    != current_text@ && render is Some {
                    final(self).lookup(key.view()) matches Some(
                        LoadedKeyImage::Clock { image: i2, current_text: t2, background_name: b2 },
                    ) && i2 == render.unwrap() && t2@ == text@ && b2 == background_name
                } else {
                    final(self).lookup(key.view()) == old(self).lookup(key.view())
                },
                _ => final(self).lookup(key.view()) == old(self).lookup(key.view()),
            },
    {
        let found = self.find(key);
        let i = match found {
            Some(i) => i,
            None => {
                return ;
            },
        };
        let shown_text = String::from_str(text);
        let refreshed = match (&self.entries[i].1, render) {
            (LoadedKeyImage::Clock { image: _, current_text, background_name }, Some(image)) => {
                if *current_text != shown_text {
                    Some(
                        LoadedKeyImage::Clock {
                            image,
                            current_text: String::from_str(text),
                            background_name: background_name.clone(),
                        },
                    )
                } else {
                    None
                }
            },
            _ => None,
        };
        if let Some(entry) = refreshed {
            let ghost s = self.entries@;
            let k = clone_key(&self.entries[i].0);
            let ghost kk = k;
            assert(kk == s[i as int].0);
            self.entries.set(i, (k, entry));
            proof {
                assert forall|q: (Seq<char>, Option<Seq<char>>)|
                    #![trigger find_from(self.entries@, q, 0)]
                    find_from(self.entries@, q, 0) == find_from(s, q, 0) by {
                    lemma_find_same_keys(s, self.entries@, q, 0);
                }
                assert forall|q: (Seq<char>, Option<Seq<char>>)|
                    q != key.view() implies #[trigger] self.lookup(q) == lookup_in(s, q) by {
                    lemma_find_bounds(s, q, 0);
                    lemma_find_bounds(s, key.view(), 0);
                    if let Some(j) = find_from(s, q, 0) {
                        assert(j != i);
                        assert(self.entries@[j] == s[j]);
                    }
                }
                assert forall|a: int, b: int|
                    0 <= a < b < self.entries@.len() implies (#[trigger] self.entries@[a]).0.view()
                        != (#[trigger] self.entries@[b]).0.view() by {
                    assert(s[a].0.view() != s[b].0.view());
                }
            }
        }
    }
}

/// What a cache with entries `s` holds for `k`.
pub open spec fn lookup_in(
    s: Seq<(ImageCacheKey, LoadedKeyImage)>,
    k: (Seq<char>, Option<Seq<char>>),
) -> Option<LoadedKeyImage> {
    match find_from(s, k, 0) {
        Some(i) => Some(s[i].1),
        None => None,
    }
}

fn clone_key(k: &ImageCacheKey) -> (r: ImageCacheKey)
    ensures
        r == *k,
{
    ImageCacheKey {
        icon: k.icon.clone(),
        clock_background: match &k.clock_background {
            Some(b) => Some(b.clone()),
            None => None,
        },
    }
}

fn same_opt(a: &Option<String>, b: &Option<String>) -> (r: bool)
    ensures
        r == (opt_view(*a) == opt_view(*b)),
{
    match (a, b) {
        (Some(x), Some(y)) => *x == *y,
        (None, None) => true,
        _ => false,
    }
}

fn same_key(a: &ImageCacheKey, b: &ImageCacheKey) -> (r: bool)
    ensures
        r == (a.view() == b.view()),
{
    a.icon == b.icon && same_opt(&a.clock_background, &b.clock_background)
}


/// Cache keys one configured key needs: its icon, and for a status key its
/// on and off icons, all with the key's clock background.
pub open spec fn key_warm_keys(key: StreamrsKeyBinding) -> Seq<(Seq<char>, Option<Seq<char>>)> {
    let bg = trimmed_non_empty_spec(opt_view(key.clock_background));
    if status_command_spec(key) is Some {
        seq![
            (key.icon@, bg),
            (status_icon_spec(key.icon_on, key.icon), bg),
            (status_icon_spec(key.icon_off, key.icon), bg),
        ]
    } else {
        seq![(key.icon@, bg)]
    }
}

/// Cache keys the first `n` configured keys need, in order.
pub open spec fn keys_warm_keys(keys: Seq<StreamrsKeyBinding>, n: int) -> Seq<
    (Seq<char>, Option<Seq<char>>),
>
    decreases n,
{
    if n <= 0 {
        Seq::empty()
    } else {
        keys_warm_keys(keys, n - 1) + key_warm_keys(keys[n - 1])
    }
}

/// Cache keys a configuration needs, in the order they are loaded: every
/// key's icons, then the page buttons when there is more than one page.
pub open spec fn warm_keys_spec(c: StreamrsConfig) -> Seq<(Seq<char>, Option<Seq<char>>)> {
    let base = keys_warm_keys(c.keys@, c.keys@.len() as int);
    if page_count_spec(c.keys_per_page as int, c.keys@.len() as int) > 1 {
        base + seq![(PREVIOUS_PAGE_ICON@, None), (NEXT_PAGE_ICON@, None)]
    } else {
        base
    }
}

/// The cache keys to load when a configuration becomes active (a key may
/// come more than once; it is loaded once).
pub fn warm_keys(config: &StreamrsConfig) -> (r: Vec<ImageCacheKey>)
    requires
        3 <= config.keys_per_page <= STREAMDECK_KEY_COUNT,
    ensures
        r@.map_values(|k: ImageCacheKey| k.view()) == warm_keys_spec(*config),
{
    let mut r: Vec<ImageCacheKey> = Vec::new();
    let mut i: usize = 0;
    while i < config.keys.len()
        invariant
            i <= config.keys@.len(),
            r@.map_values(|k: ImageCacheKey| k.view()) == keys_warm_keys(config.keys@, i as int),
        decreases config.keys@.len() - i,
    {
        let key = &config.keys[i];
        let bg = key_clock_background(key);
        let ghost before = r@;
        r.push(ImageCacheKey { icon: key.icon.clone(), clock_background: clone_opt(&bg) });
        if key_status_command(key).is_some() {
            r.push(ImageCacheKey { icon: key_status_icon_on(key), clock_background: clone_opt(&bg) });
            r.push(ImageCacheKey { icon: key_status_icon_off(key), clock_background: clone_opt(&bg) });
        }
        proof {
            assert(r@.map_values(|k: ImageCacheKey| k.view()) =~= keys_warm_keys(
                config.keys@,
                i + 1,
            ));
        }
        i = i + 1;
    }
    if page_count(config) > 1 {
        r.push(ImageCacheKey { icon: String::from_str(PREVIOUS_PAGE_ICON), clock_background: None });
        r.push(ImageCacheKey { icon: String::from_str(NEXT_PAGE_ICON), clock_background: None });
    }
    assert(r@.map_values(|k: ImageCacheKey| k.view()) =~= warm_keys_spec(*config));
    r
}

fn clone_opt(o: &Option<String>) -> (r: Option<String>)
    ensures
        r == *o,
{
    match o {
        Some(s) => Some(s.clone()),
        None => None,
    }
}

} // verus!
