//! The settings that a controller hands to a device it has adopted.

use vstd::prelude::*;
use vstd::string::{StrSliceExecFns, StringExecFns};

verus! {

/// The settings of an adopted device.
#[derive(PartialEq, Clone, Debug)]
pub struct Config {
    pub capability: Vec<String>,
    pub cfgversion: String,
    pub selfrun_guest_mode: String,
    pub led_enabled: bool,
    pub stun_url: String,
    pub mgmt_url: String,
    pub authkey: String,
    pub use_aes_gcm: bool,
    pub report_crash: bool,
}

/// What a `Config` holds, with text as characters.
pub struct ConfigView {
    pub capability: Seq<Seq<char>>,
    pub cfgversion: Seq<char>,
    pub selfrun_guest_mode: Seq<char>,
    pub led_enabled: bool,
    pub stun_url: Seq<char>,
    pub mgmt_url: Seq<char>,
    pub authkey: Seq<char>,
    pub use_aes_gcm: bool,
    pub report_crash: bool,
}

/// The texts as characters, in order.
pub open spec fn text_views(texts: Seq<String>) -> Seq<Seq<char>> {
    texts.map_values(|t: String| t@)
}

impl View for Config {
    type V = ConfigView;

    open spec fn view(&self) -> ConfigView {
        ConfigView {
            capability: text_views(self.capability@),
            cfgversion: self.cfgversion@,
            selfrun_guest_mode: self.selfrun_guest_mode@,
            led_enabled: self.led_enabled,
            stun_url: self.stun_url@,
            mgmt_url: self.mgmt_url@,
            authkey: self.authkey@,
            use_aes_gcm: self.use_aes_gcm,
            report_crash: self.report_crash,
        }
    }
}

/// The settings of which nothing has been said yet: every text empty, every
/// switch off, no capability.
pub open spec fn empty_config() -> ConfigView {
    ConfigView {
        capability: Seq::empty(),
        cfgversion: Seq::empty(),
        selfrun_guest_mode: Seq::empty(),
        led_enabled: false,
        stun_url: Seq::empty(),
        mgmt_url: Seq::empty(),
        authkey: Seq::empty(),
        use_aes_gcm: false,
        report_crash: false,
    }
}

/// The place of the first `c` in `s`; the length of `s` where there is none.
pub open spec fn find(s: Seq<char>, c: char) -> int
    decreases s.len(),
{
    if s.len() == 0 {
        0
    } else if s[0] == c {
        0
    } else {
        1 + find(s.skip(1), c)
    }
}

/// The pieces of `s` between the places where `c` stands: one more than there
/// are such places.
pub open spec fn split_on(s: Seq<char>, c: char) -> Seq<Seq<char>>
    decreases s.len(),
{
    let k = find(s, c);
    if 0 <= k < s.len() {
        seq![s.take(k)] + split_on(s.skip(k + 1), c)
    } else {
        seq![s]
    }
}

/// The settings after one entry: a known key sets its field, a switch is on
/// exactly where the value is `true`, the capabilities are the pieces of the
/// value between commas, and any other key changes nothing.
pub open spec fn apply_entry(cfg: ConfigView, key: Seq<char>, value: Seq<char>) -> ConfigView {
    if key == "capability"@ {
        ConfigView { capability: split_on(value, ','), ..cfg }
    } else if key == "selfrun_guest_mode"@ {
        ConfigView { selfrun_guest_mode: value, ..cfg }
    } else if key == "cfgversion"@ {
        ConfigView { cfgversion: value, ..cfg }
    } else if key == "led_enabled"@ {
        ConfigView { led_enabled: value == "true"@, ..cfg }
    } else if key == "stun_url"@ {
        ConfigView { stun_url: value, ..cfg }
    } else if key == "mgmt_url"@ {
        ConfigView { mgmt_url: value, ..cfg }
    } else if key == "authkey"@ {
        ConfigView { authkey: value, ..cfg }
    } else if key == "use_aes_gcm"@ {
        ConfigView { use_aes_gcm: value == "true"@, ..cfg }
    } else if key == "report_crash"@ {
        ConfigView { report_crash: value == "true"@, ..cfg }
    } else {
        cfg
    }
}

/// The settings after one line: what stands before the first `=` is the key,
/// what follows it the value; a line without `=` changes nothing.
pub open spec fn apply_line(cfg: ConfigView, line: Seq<char>) -> ConfigView {
    let j = find(line, '=');
    if 0 <= j < line.len() {
        apply_entry(cfg, line.take(j), line.skip(j + 1))
    } else {
        cfg
    }
}

/// The settings after every line of `text`, from the first to the last. A line
/// ends at a line feed, or at the end of the text; a carriage return that
/// stands right before the line feed does not belong to the line.
pub open spec fn apply_cfg(cfg: ConfigView, text: Seq<char>) -> ConfigView
    decreases text.len(),
{
    if text.len() == 0 {
        cfg
    } else {
        let k = find(text, '\n');
        if 0 <= k < text.len() {
            let line = if k > 0 && text[k - 1] == '\r' {
                text.take(k - 1)
            } else {
                text.take(k)
            };
            apply_cfg(apply_line(cfg, line), text.skip(k + 1))
        } else {
            apply_line(cfg, text)
        }
    }
}

/// `find` gives the place `k` where `c` stands at `k`, or `k` is the end, and
/// stands nowhere before.
pub proof fn lemma_find(s: Seq<char>, c: char, k: int)
    requires
        0 <= k <= s.len(),
        forall|i: int| 0 <= i < k ==> s[i] != c,
        k < s.len() ==> s[k] == c,
    ensures
        find(s, c) == k,
    decreases s.len(),
{
    if s.len() > 0 && k > 0 {
        assert(s[0] != c);
        assert forall|i: int| 0 <= i < k - 1 implies s.skip(1)[i] != c by {
            assert(s.skip(1)[i] == s[i + 1]);
        }
        lemma_find(s.skip(1), c, k - 1);
    }
}

/// The first place from `from` on and before `to` where `c` stands in `text`;
/// `to` where there is none.
fn find_char(text: &str, c: char, from: usize, to: usize) -> (r: usize)
    requires
        from <= to <= text@.len(),
    ensures
        from <= r <= to,
        find(text@.subrange(from as int, to as int), c) == r - from,
{
    let mut i: usize = from;
    while i < to && text.get_char(i) != c
        invariant
            from <= i <= to,
            to <= text@.len(),
            forall|k: int| from <= k < i ==> text@[k] != c,
        decreases to - i,
    {
        i += 1;
    }
    proof {
        let part = text@.subrange(from as int, to as int);
        assert forall|k: int| 0 <= k < i - from implies part[k] != c by {
            assert(part[k] == text@[from + k]);
        }
        lemma_find(part, c, i - from);
    }
    i
}

/// The pieces of `text` from `from` up to `to` between the places where `c` stands.
fn split_text(text: &str, c: char, from: usize, to: usize) -> (r: Vec<String>)
    requires
        from <= to <= text@.len(),
    ensures
        text_views(r@) == split_on(text@.subrange(from as int, to as int), c),
{
    let ghost whole = split_on(text@.subrange(from as int, to as int), c);
    let mut out: Vec<String> = Vec::new();
    let mut at: usize = from;
    let mut done: bool = false;
    proof {
        assert(text_views(out@) + whole =~= whole);
    }
    while !done
        invariant
            from <= at <= to,
            to <= text@.len(),
            whole == split_on(text@.subrange(from as int, to as int), c),
            !done ==> whole == text_views(out@) + split_on(
                text@.subrange(at as int, to as int),
                c,
            ),
            done ==> whole == text_views(out@),
        decreases
                if done {
                    0
                } else {
                    1 + to - at
                },
    {
        let k: usize = find_char(text, c, at, to);
        let piece = String::from_str(text.substring_char(at, k));
        proof {
            let rest = text@.subrange(at as int, to as int);
            assert(rest.take(k - at) =~= text@.subrange(at as int, k as int));
            assert(text_views(out@.push(piece)) =~= text_views(out@).push(piece@));
            if k < to {
                assert(rest.skip(k - at + 1) =~= text@.subrange(k + 1, to as int));
                assert(text_views(out@).push(piece@) + split_on(
                    text@.subrange(k + 1, to as int),
                    c,
                ) =~= text_views(out@) + (seq![piece@] + split_on(
                    text@.subrange(k + 1, to as int),
                    c,
                )));
            } else {
                assert(rest.take(k - at) =~= rest);
                assert(text_views(out@).push(piece@) =~= text_views(out@) + seq![rest]);
            }
        }
        out.push(piece);
        if k < to {
            at = k + 1;
        } else {
            done = true;
        }
    }
    out
}

impl Config {
    /// The settings of which nothing has been said yet.
    pub fn new() -> (r: Self)
        ensures
            r@ == empty_config(),
    {
        let r = Config {
            capability: Vec::new(),
            cfgversion: String::new(),
            selfrun_guest_mode: String::new(),
            led_enabled: false,
            stun_url: String::new(),
            mgmt_url: String::new(),
            authkey: String::new(),
            use_aes_gcm: false,
            report_crash: false,
        };
        proof {
            assert(r@.capability =~= Seq::<Seq<char>>::empty());
        }
        r
    }

    /// Sets the field that the key names, from the characters of `text` that
    /// stand for the key and for the value, see `apply_entry`.
    fn set_entry(
        &mut self,
        text: &str,
        key_from: usize,
        key_to: usize,
        value_from: usize,
        value_to: usize,
    )
        requires
            key_from <= key_to <= text@.len(),
            value_from <= value_to <= text@.len(),
        ensures
            final(self)@ == apply_entry(
                old(self)@,
                text@.subrange(key_from as int, key_to as int),
                text@.subrange(value_from as int, value_to as int),
            ),
    {
        let key = String::from_str(text.substring_char(key_from, key_to));
        let value = String::from_str(text.substring_char(value_from, value_to));
        if key == String::from_str("capability") {
            self.capability = split_text(text, ',', value_from, value_to);
        } else if key == String::from_str("selfrun_guest_mode") {
            self.selfrun_guest_mode = value;
        } else if key == String::from_str("cfgversion") {
            self.cfgversion = value;
        } else if key == String::from_str("led_enabled") {
            self.led_enabled = value == String::from_str("true");
        } else if key == String::from_str("stun_url") {
            self.stun_url = value;
        } else if key == String::from_str("mgmt_url") {
            self.mgmt_url = value;
        } else if key == String::from_str("authkey") {
            self.authkey = value;
        } else if key == String::from_str("use_aes_gcm") {
            self.use_aes_gcm = value == String::from_str("true");
        } else if key == String::from_str("report_crash") {
            self.report_crash = value == String::from_str("true");
        }
    }

    /// Takes over every `key=value` line of a management configuration, from the
    /// first to the last, see `apply_cfg`.
    pub fn update_from_mgmt_cfg(&mut self, mgmt_cfg: String)
        ensures
            final(self)@ == apply_cfg(old(self)@, mgmt_cfg@),
    {
        let text: &str = mgmt_cfg.as_str();
        let n: usize = text.unicode_len();
        let mut start: usize = 0;
        proof {
            assert(text@.subrange(0, n as int) =~= text@);
        }
        while start < n
            invariant
                start <= n,
                n == text@.len(),
                text@ == mgmt_cfg@,
                apply_cfg(old(self)@, mgmt_cfg@) == apply_cfg(
                    self@,
                    text@.subrange(start as int, n as int),
                ),
            decreases n - start,
        {
            let ghost rest = text@.subrange(start as int, n as int);
            let end: usize = find_char(text, '\n', start, n);
            let stop: usize = if end < n && end > start && text.get_char(end - 1) == '\r' {
                (end - 1) as usize
            } else {
                end
            };
            let ghost line = text@.subrange(start as int, stop as int);
            proof {
                if end < n {
                    if end > start {
                        assert(rest[end - start - 1] == text@[end - 1]);
                    }
                    assert(rest.take(stop - start) =~= line);
                    assert(rest.skip(end - start + 1) =~= text@.subrange(end + 1, n as int));
                } else {
                    assert(line =~= rest);
                }
            }
            let sign: usize = find_char(text, '=', start, stop);
            if sign < stop {
                proof {
                    assert(line.take(sign - start) =~= text@.subrange(start as int, sign as int));
                    assert(line.skip(sign - start + 1) =~= text@.subrange(sign + 1, stop as int));
                }
                self.set_entry(text, start, sign, sign + 1, stop);
            }
            if end < n {
                start = end + 1;
            } else {
                start = n;
                proof {
                    assert(text@.subrange(n as int, n as int).len() == 0);
                }
            }
        }
    }

    /// The settings that a management configuration gives to a device of which
    /// nothing has been said yet.
    pub fn from_mgmt_cfg(mgmt_cfg: String) -> (r: Self)
        ensures
            r@ == apply_cfg(empty_config(), mgmt_cfg@),
    {
        let mut cfg: Self = Self::new();
        cfg.update_from_mgmt_cfg(mgmt_cfg);
        cfg
    }
}

} // verus!
