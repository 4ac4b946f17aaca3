//! The metadata record kept for each identifier, and the retention rule that
//! decides when a record has expired.

use crate::config::IhaCdnConfig;
use crate::text::{decimal_digits, digit, digit_char, push_char, push_decimal};
use vstd::arithmetic::div_mod::{lemma_div_denominator, lemma_div_is_ordered};
use vstd::prelude::*;
use vstd::string::StringExecFns;

verus! {

/// The namespace of the record keys in the metadata store.
pub const PREFIX: &'static str = "ihacdn";

/// What one identifier stands for.
#[derive(Debug, Clone)]
pub enum CDNData {
    /// A redirect to `target`.
    Short { target: String },
    /// A stored file, served with the content type `mimetype`.
    File { is_admin: bool, path: String, mimetype: String, time_added: i64 },
    /// A stored text. `mimetype` holds its file extension, which picks the
    /// highlighting.
    Code { is_admin: bool, path: String, mimetype: String, time_added: i64 },
}

/// A `CDNData` as plain values.
pub enum CDNDataView {
    Short { target: Seq<char> },
    File { is_admin: bool, path: Seq<char>, mimetype: Seq<char>, time_added: i64 },
    Code { is_admin: bool, path: Seq<char>, mimetype: Seq<char>, time_added: i64 },
}

impl View for CDNData {
    type V = CDNDataView;

    open spec fn view(&self) -> CDNDataView {
        match self {
            CDNData::Short { target } => CDNDataView::Short { target: target@ },
            CDNData::File { is_admin, path, mimetype, time_added } => CDNDataView::File {
                is_admin: *is_admin,
                path: path@,
                mimetype: mimetype@,
                time_added: *time_added,
            },
            CDNData::Code { is_admin, path, mimetype, time_added } => CDNDataView::Code {
                is_admin: *is_admin,
                path: path@,
                mimetype: mimetype@,
                time_added: *time_added,
            },
        }
    }
}

/// What a look at a record's file on disk showed.
#[derive(Debug, Clone, Copy, PartialEq, Eq, Structural)]
pub enum FileProbe {
    /// The file is there and holds this many bytes.
    Size(u64),
    /// There is no such file.
    Missing,
    /// The look failed for another reason.
    Unreadable,
}

/// The age after which a file of `file_size` bytes expires, where uploads
/// are limited to `limit` bytes: `max_age` for an empty file, falling in a
/// straight line to `min_age` for a file of `limit` bytes or more.
pub open spec fn retention_age(file_size: u64, limit: u64, min_age: u64, max_age: u64) -> int {
    if max_age <= min_age || file_size >= limit {
        min_age as int
    } else {
        min_age + ((max_age - min_age) * (limit - file_size)) / (limit as int)
    }
}

/// `age`, held to what an `i64` can say.
pub open spec fn capped_age(age: int) -> int {
    if age > i64::MAX {
        i64::MAX as int
    } else {
        age
    }
}

/// The time that has passed from `time_added` to `now`, held to the range
/// of `i64`.
pub open spec fn age_at(now: i64, time_added: i64) -> int {
    let d = now - time_added;
    if d > i64::MAX {
        i64::MAX as int
    } else if d < i64::MIN {
        i64::MIN as int
    } else {
        d
    }
}

/// The result of `calculate_retention_file`: the age after which a file
/// expires, or -1 where the audience has no size limit.
pub open spec fn retention_of(file_size: u64, config: IhaCdnConfig, is_admin: bool) -> int {
    match config.limit_bytes(is_admin) {
        Some(limit) => capped_age(
            retention_age(file_size, limit, config.retention.min_age, config.retention.max_age),
        ),
        None => -1,
    }
}

impl CDNData {
    /// Whether an administrator made the record. A redirect has no such mark
    /// and counts as made by somebody else.
    pub open spec fn admin(&self) -> bool {
        match self {
            CDNData::Short { .. } => false,
            CDNData::File { is_admin, .. } => *is_admin,
            CDNData::Code { is_admin, .. } => *is_admin,
        }
    }

    /// The file that backs the record, if it has one.
    pub open spec fn backing_path(&self) -> Option<Seq<char>> {
        match self {
            CDNData::Short { .. } => None,
            CDNData::File { path, .. } => Some(path@),
            CDNData::Code { path, .. } => Some(path@),
        }
    }

    /// When the record was made, if it says so.
    pub open spec fn added_at(&self) -> Option<i64> {
        match self {
            CDNData::Short { .. } => None,
            CDNData::File { time_added, .. } => Some(*time_added),
            CDNData::Code { time_added, .. } => Some(*time_added),
        }
    }

    /// Whether the record has expired at `now`, given what `probe` found of
    /// its file. A redirect and an administrator's record never expire. Of
    /// the others, one whose file is missing has expired; one whose file
    /// could not be looked at has not; one whose audience has no size limit
    /// has not; and the rest expire once they are older than the retention
    /// age of their size.
    pub open spec fn expired(&self, config: IhaCdnConfig, now: i64, probe: FileProbe) -> bool {
        match self.added_at() {
            None => false,
            Some(time_added) => if self.admin() {
                false
            } else {
                match probe {
                    FileProbe::Missing => true,
                    FileProbe::Unreadable => false,
                    FileProbe::Size(size) => {
                        let max_age = retention_of(size, config, false);
                        max_age != -1 && age_at(now, time_added) > max_age
                    },
                }
            },
        }
    }

    pub fn is_admin(&self) -> (r: bool)
        ensures
            r == self.admin(),
    {
        match self {
            CDNData::Short { .. } => false,
            CDNData::File { is_admin, .. } => *is_admin,
            CDNData::Code { is_admin, .. } => *is_admin,
        }
    }

    /// The file that backs the record, if it has one: what a purge deletes
    /// from disk.
    pub fn file_path(&self) -> (r: Option<&String>)
        ensures
            match r {
                Some(p) => self.backing_path() == Some(p@),
                None => self.backing_path() is None,
            },
    {
        match self {
            CDNData::Short { .. } => None,
            CDNData::File { path, .. } => Some(path),
            CDNData::Code { path, .. } => Some(path),
        }
    }

    /// Whether the verdict on the record depends on a look at its file.
    pub fn needs_probe(&self) -> (r: bool)
        ensures
            r == (self.added_at() is Some && !self.admin()),
            !r ==> forall|config: IhaCdnConfig, now: i64, probe: FileProbe|
                !#[trigger] self.expired(config, now, probe),
    {
        match self {
            CDNData::Short { .. } => false,
            CDNData::File { is_admin, .. } => !*is_admin,
            CDNData::Code { is_admin, .. } => !*is_admin,
        }
    }

    /// Whether the record has expired at `now`, given what `probe` found of
    /// its file.
    pub fn is_expired(&self, config: &IhaCdnConfig, now: i64, probe: FileProbe) -> (r: bool)
        requires
            config.storage.limits_fit(),
        ensures
            r == self.expired(*config, now, probe),
    {
        let (is_admin, time_added) = match self {
            CDNData::Short { .. } => {
                return false;
            },
            CDNData::File { is_admin, time_added, .. } => (*is_admin, *time_added),
            CDNData::Code { is_admin, time_added, .. } => (*is_admin, *time_added),
        };
        if is_admin {
            return false;
        }
        let file_size = match probe {
            FileProbe::Size(size) => size,
            FileProbe::Missing => {
                return true;
            },
            FileProbe::Unreadable => {
                return false;
            },
        };
        let max_age = calculate_retention_file(file_size, config, is_admin);
        if max_age == -1 {
            false
        } else {
            let file_age = age_between(now, time_added);
            file_age > max_age
        }
    }
}

/// The time that has passed from `time_added` to `now`, held to the range of
/// `i64`.
pub fn age_between(now: i64, time_added: i64) -> (r: i64)
    ensures
        r == age_at(now, time_added),
{
    let d: i128 = now as i128 - time_added as i128;
    if d > i64::MAX as i128 {
        i64::MAX
    } else if d < i64::MIN as i128 {
        i64::MIN
    } else {
        d as i64
    }
}

/// The retention age never leaves the range from `min_age` to the larger of
/// the two ages, so it is never negative.
pub proof fn lemma_retention_age_bounds(file_size: u64, limit: u64, min_age: u64, max_age: u64)
    ensures
        min_age <= retention_age(file_size, limit, min_age, max_age),
        retention_age(file_size, limit, min_age, max_age) <= if max_age <= min_age {
            min_age
        } else {
            max_age
        },
        file_size == 0 && limit > 0 && min_age <= max_age ==> retention_age(
            file_size,
            limit,
            min_age,
            max_age,
        ) == max_age,
        file_size >= limit ==> retention_age(file_size, limit, min_age, max_age) == min_age,
{
    if !(max_age <= min_age || file_size >= limit) {
        let span = max_age - min_age;
        let room = limit - file_size;
        let l = limit as int;
        assert(0 <= span * room) by (nonlinear_arith)
            requires
                0 <= span,
                0 <= room,
        ;
        assert(span * room <= span * l) by (nonlinear_arith)
            requires
                0 <= span,
                room <= l,
        ;
        lemma_div_is_ordered(0, span * room, l);
        lemma_div_is_ordered(span * room, span * l, l);
        assert((span * l) / l == span) by (nonlinear_arith)
            requires
                l > 0,
        ;
        if file_size == 0 {
            assert(room == l);
        }
    }
}

/// Of two files under one policy the larger is kept no longer than the
/// smaller.
pub proof fn lemma_retention_age_monotone(
    smaller: u64,
    larger: u64,
    limit: u64,
    min_age: u64,
    max_age: u64,
)
    requires
        smaller <= larger,
    ensures
        retention_age(larger, limit, min_age, max_age) <= retention_age(
            smaller,
            limit,
            min_age,
            max_age,
        ),
{
    lemma_retention_age_bounds(smaller, limit, min_age, max_age);
    if !(max_age <= min_age || larger >= limit) {
        let span = max_age - min_age;
        let l = limit as int;
        assert(span * (limit - larger) <= span * (limit - smaller)) by (nonlinear_arith)
            requires
                0 <= span,
                limit - larger <= limit - smaller,
        ;
        lemma_div_is_ordered(span * (limit - larger), span * (limit - smaller), l);
    }
}

/// The age after which a file of `file_size` bytes expires, or -1 where the
/// audience has no size limit and files are kept for good.
pub fn calculate_retention_file(file_size: u64, config: &IhaCdnConfig, is_admin: bool) -> (r: i64)
    requires
        config.storage.limits_fit(),
    ensures
        r == retention_of(file_size, *config, is_admin),
        config.limit_bytes(is_admin) is Some ==> r >= 0,
{
    let limit = config.get_limit(is_admin);
    match limit {
        Some(limit) => {
            let min_age = config.retention.min_age;
            let max_age = config.retention.max_age;
            proof {
                lemma_retention_age_bounds(file_size, limit, min_age, max_age);
            }
            let age: u64 = if max_age <= min_age || file_size >= limit {
                min_age
            } else {
                let span: u128 = (max_age - min_age) as u128;
                let room: u128 = (limit - file_size) as u128;
                assert(span * room <= 0xffff_ffff_ffff_ffff * 0xffff_ffff_ffff_ffff)
                    by (nonlinear_arith)
                    requires
                        0 <= span <= 0xffff_ffff_ffff_ffff,
                        0 <= room <= 0xffff_ffff_ffff_ffff,
                ;
                let extra: u128 = span * room / (limit as u128);
                min_age + (extra as u64)
            };
            if age > i64::MAX as u64 {
                i64::MAX
            } else {
                age as i64
            }
        },
        None => -1,
    }
}

/// Whether the two records are both files of somebody who is no
/// administrator, made at the same time.
pub open spec fn same_time_public_files(a: CDNData, b: CDNData) -> bool {
    &&& a is File
    &&& b is File
    &&& !a.admin()
    &&& !b.admin()
    &&& a.added_at() == b.added_at()
}

/// Expiry follows size: of two files that were added at the same time by
/// people who are no administrators, the larger does not expire later than
/// the smaller. Whenever the smaller has expired, so has the larger.
pub proof fn lemma_larger_file_expires_no_later(
    small: CDNData,
    large: CDNData,
    small_size: u64,
    large_size: u64,
    config: IhaCdnConfig,
    now: i64,
)
    requires
        same_time_public_files(small, large),
        small_size <= large_size,
    ensures
        retention_of(large_size, config, false) <= retention_of(small_size, config, false),
        small.expired(config, now, FileProbe::Size(small_size)) ==> large.expired(
            config,
            now,
            FileProbe::Size(large_size),
        ),
{
    match config.limit_bytes(false) {
        Some(limit) => {
            lemma_retention_age_monotone(
                small_size,
                large_size,
                limit,
                config.retention.min_age,
                config.retention.max_age,
            );
            lemma_retention_age_bounds(
                large_size,
                limit,
                config.retention.min_age,
                config.retention.max_age,
            );
        },
        None => {},
    }
}

/// An administrator's record never expires, whatever its size and age.
pub proof fn lemma_admin_record_never_expires(
    record: CDNData,
    config: IhaCdnConfig,
    now: i64,
    probe: FileProbe,
)
    requires
        record.admin(),
    ensures
        !record.expired(config, now, probe),
{
}

/// How many times `bytes` can be divided by 1024 before it falls below 1024.
pub open spec fn unit_index(bytes: nat) -> nat
    decreases bytes,
{
    if bytes < 1024 {
        0
    } else {
        1 + unit_index(bytes / 1024)
    }
}

/// 1024 to the power `index`.
pub open spec fn unit_size(index: nat) -> nat
    decreases index,
{
    if index == 0 {
        1
    } else {
        1024 * unit_size((index - 1) as nat)
    }
}

/// The name of the unit of `unit_size(index)` bytes.
pub open spec fn unit_suffix(index: nat) -> Seq<char> {
    if index == 0 {
        "B"@
    } else if index == 1 {
        "KiB"@
    } else if index == 2 {
        "MiB"@
    } else if index == 3 {
        "GiB"@
    } else if index == 4 {
        "TiB"@
    } else if index == 5 {
        "PiB"@
    } else {
        "EiB"@
    }
}

/// A size for people to read: the number of whole units, then, unless it
/// is zero, a point and the tenths of a unit (cut off, not rounded), then a
/// space and the unit's name. The unit is the largest power of 1024 that is
/// not above `bytes`.
pub open spec fn humanized(bytes: u64) -> Seq<char> {
    let index = unit_index(bytes as nat);
    let unit = unit_size(index);
    let whole = (bytes as nat) / unit;
    let tenths = ((bytes as nat) * 10 / unit) % 10;
    let fraction = if tenths == 0 {
        Seq::<char>::empty()
    } else {
        seq!['.', digit_char(tenths)]
    };
    decimal_digits(whole) + fraction + seq![' '] + unit_suffix(index)
}

/// A size for people to read, such as `512 MiB` or `1.5 KiB`.
pub fn humanize_bytes(bytes: u64) -> (r: String)
    ensures
        r@ == humanized(bytes),
{
    let mut rest: u64 = bytes;
    let mut unit: u64 = 1;
    let mut index: u64 = 0;
    while rest >= 1024
        invariant
            unit >= 1,
            index < unit,
            rest == bytes / unit,
            unit as nat == unit_size(index as nat),
            unit_index(bytes as nat) == index + unit_index(rest as nat),
            unit * rest <= bytes,
        decreases rest,
    {
        proof {
            lemma_div_denominator(bytes as int, unit as int, 1024);
            assert(unit * 1024 <= unit * rest) by (nonlinear_arith)
                requires
                    1024 <= rest,
                    unit >= 1,
            ;
            assert((unit * 1024) * (rest / 1024) <= unit * rest) by (nonlinear_arith)
                requires
                    rest >= 0,
                    unit >= 1,
            ;
        }
        unit = unit * 1024;
        rest = rest / 1024;
        index = index + 1;
    }
    let mut r = String::new();
    push_decimal(&mut r, rest);
    let tenths: u64 = ((bytes as u128 * 10 / (unit as u128)) % 10) as u64;
    if tenths != 0 {
        push_char(&mut r, '.');
        push_char(&mut r, digit(tenths));
    }
    push_char(&mut r, ' ');
    let suffix = if index == 0 {
        "B"
    } else if index == 1 {
        "KiB"
    } else if index == 2 {
        "MiB"
    } else if index == 3 {
        "GiB"
    } else if index == 4 {
        "TiB"
    } else if index == 5 {
        "PiB"
    } else {
        "EiB"
    };
    r.append(suffix);
    assert(r@ =~= humanized(bytes));
    r
}

} // verus!
