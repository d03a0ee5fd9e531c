//! Names of the batch directory and of the files in it.
//!
//! Every batch has a directory of its own under the output directory, named
//! after the generator settings and the time the batch started. A file is
//! named after the number of its problem in the batch and the problem's
//! type.

use crate::config::ProblemConfig;
use crate::text::{decimal, decimal_digits};
use vstd::prelude::*;
use vstd::string::StringExecFns;

verus! {

/// The label of an addition-only problem.
pub open spec fn addition_label() -> Seq<char> {
    seq!['加', '算']
}

/// The label of a problem that mixes addition and subtraction.
pub open spec fn mixed_label() -> Seq<char> {
    seq!['加', '減', '算']
}

/// The label that names a problem's type in a file name.
pub open spec fn problem_type_label_of(subtractions: u32) -> Seq<char> {
    if subtractions == 0 {
        addition_label()
    } else {
        mixed_label()
    }
}

/// The name of the file of the problem with the 1-based number `ordinal`:
/// the number, a hyphen, the type label and the extension `.wav`.
pub open spec fn file_name_of(subtractions: u32, ordinal: u32) -> Seq<char> {
    decimal_digits(ordinal as nat) + seq!['-'] + problem_type_label_of(subtractions)
        + seq!['.', 'w', 'a', 'v']
}

/// The name of a batch directory: smallest and largest digit count, the
/// length of a problem and the batch's time stamp, joined by hyphens.
pub open spec fn dir_name_of(config: ProblemConfig, stamp: Seq<char>) -> Seq<char> {
    decimal_digits(config.min_digit as nat) + seq!['-'] + decimal_digits(config.max_digit as nat)
        + seq!['-'] + decimal_digits(config.length as nat) + seq!['-'] + stamp
}

/// The part of a batch directory's name that precedes the time stamp.
pub open spec fn dir_prefix_of(config: ProblemConfig) -> Seq<char> {
    dir_name_of(config, Seq::empty())
}

/// The type label of a problem with the given subtraction setting.
pub fn problem_type_label(subtractions: u32) -> (label: &'static str)
    ensures
        label@ == problem_type_label_of(subtractions),
{
    proof {
        reveal_strlit("加算");
        reveal_strlit("加減算");
    }
    let label = if subtractions == 0 {
        "加算"
    } else {
        "加減算"
    };
    assert(label@ =~= problem_type_label_of(subtractions));
    label
}

/// Names the file of the problem with the 1-based number `i`.
pub fn get_file_name(subtractions: u32, i: u32) -> (name: String)
    ensures
        name@ == file_name_of(subtractions, i),
{
    proof {
        reveal_strlit("-");
        reveal_strlit(".wav");
    }
    let mut name = decimal(i);
    name.append("-");
    name.append(problem_type_label(subtractions));
    name.append(".wav");
    assert(name@ =~= file_name_of(subtractions, i));
    name
}

/// Names the directory of a batch that started at the time `stamp` denotes.
pub fn get_dir_name(config: &ProblemConfig, stamp: &str) -> (name: String)
    ensures
        name@ == dir_name_of(*config, stamp@),
{
    proof {
        reveal_strlit("-");
    }
    let mut name = decimal(config.min_digit);
    name.append("-");
    name.append(decimal(config.max_digit).as_str());
    name.append("-");
    name.append(decimal(config.length).as_str());
    name.append("-");
    name.append(stamp);
    assert(name@ =~= dir_name_of(*config, stamp@));
    name
}

/// The name of the folder that holds the batches by default.
pub open spec fn default_folder_of() -> Seq<char> {
    seq!['y', 'i', 's', 'h']
}

/// The folder, under the user's audio directory, that holds the batches
/// unless another place is asked for.
pub fn default_folder() -> (name: &'static str)
    ensures
        name@ == default_folder_of(),
{
    proof {
        reveal_strlit("yish");
    }
    let name = "yish";
    assert(name@ =~= default_folder_of());
    name
}

/// The local date and time of the call, written by `chrono` with the format
/// `%Y%m%d%H%M%S`: year, month, day, hour, minute and second, without
/// separators. It reads the clock and the time zone, so nothing is claimed
/// of the text.
#[verifier::external_body]
pub(crate) fn get_timestamp() -> (stamp: String) {
    chrono::Local::now().format("%Y%m%d%H%M%S").to_string()
}

/// Names the directory of a batch that starts now.
pub fn new_dir_name(config: &ProblemConfig) -> (name: String)
    ensures
        dir_prefix_of(*config).is_prefix_of(name@),
{
    let stamp = get_timestamp();
    let name = get_dir_name(config, stamp.as_str());
    assert(name@.subrange(0, dir_prefix_of(*config).len() as int) =~= dir_prefix_of(*config));
    name
}

/// Two batch directories of one configuration differ exactly where their
/// time stamps differ: the name determines the stamp.
pub proof fn law_dir_name_keeps_stamp(config: ProblemConfig, a: Seq<char>, b: Seq<char>)
    requires
        dir_name_of(config, a) == dir_name_of(config, b),
    ensures
        a == b,
{
    let p = dir_prefix_of(config);
    assert(dir_name_of(config, a) =~= p + a);
    assert(dir_name_of(config, b) =~= p + b);
    assert((p + a).subrange(p.len() as int, (p + a).len() as int) =~= a);
    assert((p + b).subrange(p.len() as int, (p + b).len() as int) =~= b);
}

} // verus!
