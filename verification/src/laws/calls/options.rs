//! Calls that read the command line of the benchmark.
use crate::benchmark;
use crate::benchmark::{Config, ConfigView, Request};
use crate::numerals;
use vstd::prelude::*;

verus! {

/// Without options there are ten repetitions of sixty tasks of twenty milliseconds over three zones,
/// with up to six robots.
pub proof fn law_default_config(config: Config)
    requires
        call_ensures(Config::default, (), config),
    ensures
        config.repetitions == 10,
        config.tasks == 60,
        config.zones == 3,
        config.duration_ms == 20,
        config.max_robots == 6,
        config.output@ == "../benchmark-results/local"@,
        benchmark::ZONE_PAUSE_MS == 1,
{
}

/// The number of an option of thirty-two bits is read exactly if the value stands for a number from
/// one to the largest of them, and then as that number.
pub proof fn law_parse_positive_u32(
    flag: &str,
    value: Option<String>,
    number: Result<u32, String>,
)
    requires
        call_ensures(benchmark::parse_positive::<u32>, (flag, value), number),
    ensures
        number matches Ok(n) ==> n > 0 && value is Some && numerals::unsigned_value(value->0@)
            == Some(n as nat),
        value matches Some(raw) ==> {
            let read = numerals::unsigned_value(raw@);
            if read is None || read->0 >= 0x1_0000_0000 {
                number matches Err(message) && message@ == "invalid value for "@ + flag@ + ": "@
                    + raw@
            } else if read->0 == 0 {
                number matches Err(message) && message@ == flag@ + " must be greater than zero"@
            } else {
                number is Ok
            }
        },
        value is None ==> (number matches Err(message) && message@ == flag@ + " requires a value"@),
{
}

/// The same of an option of sixty-four bits.
pub proof fn law_parse_positive_u64(
    flag: &str,
    value: Option<String>,
    number: Result<u64, String>,
)
    requires
        call_ensures(benchmark::parse_positive::<u64>, (flag, value), number),
    ensures
        number matches Ok(n) ==> n > 0 && value is Some && numerals::unsigned_value(value->0@)
            == Some(n as nat),
        value matches Some(raw) ==> {
            let read = numerals::unsigned_value(raw@);
            if read is None || read->0 >= 0x1_0000_0000_0000_0000 {
                number matches Err(message) && message@ == "invalid value for "@ + flag@ + ": "@
                    + raw@
            } else if read->0 == 0 {
                number matches Err(message) && message@ == flag@ + " must be greater than zero"@
            } else {
                number is Ok
            }
        },
        value is None ==> (number matches Err(message) && message@ == flag@ + " requires a value"@),
{
}

/// Without arguments the benchmark runs as by default.
pub proof fn law_no_arguments(args: Vec<String>, read: Result<Option<Config>, String>)
    requires
        call_ensures(benchmark::parse_args, (&args,), read),
        args@.len() == 0,
    ensures
        read matches Ok(Some(config)) && config.repetitions == 10 && config.tasks == 60
            && config.zones == 3 && config.duration_ms == 20 && config.max_robots == 6
            && config.output@ == "../benchmark-results/local"@,
{
}

proof fn lemma_read_in_turn(args: Seq<Seq<char>>, config: ConfigView, more: Seq<Seq<char>>)
    ensures
        match benchmark::requested(args, config) {
            Request::Run(read) => benchmark::requested(args + more, config)
                == benchmark::requested(more, read),
            _ => args.len() % 2 == 0 ==> benchmark::requested(args + more, config)
                == benchmark::requested(args, config),
        },
    decreases args.len(),
{
    if args.len() == 0 {
        assert(args + more =~= more);
    } else if args.len() > 1 {
        assert((args + more).skip(2) =~= args.skip(2) + more);
        benchmark::lemma_duration_flag_differs();
        if let Some(changed) = config.with_number(
            args[0],
            numerals::unsigned_value(args[1])->0,
        ) {
            lemma_read_in_turn(args.skip(2), changed, more);
        }
        lemma_read_in_turn(args.skip(2), ConfigView { output: args[1], ..config }, more);
    }
}

proof fn lemma_flags_differ()
    ensures
        "-h"@ != "--repetitions"@,
        "-h"@ != "--tasks"@,
        "-h"@ != "--zones"@,
        "-h"@ != "--duration-ms"@,
        "-h"@ != "--max-robots"@,
        "-h"@ != "--output"@,
        "--help"@ != "--repetitions"@,
        "--help"@ != "--tasks"@,
        "--help"@ != "--zones"@,
        "--help"@ != "--duration-ms"@,
        "--help"@ != "--max-robots"@,
        "--help"@ != "--output"@,
        "--repetitions"@ != "--tasks"@,
        "--repetitions"@ != "--zones"@,
        "--repetitions"@ != "--duration-ms"@,
        "--repetitions"@ != "--max-robots"@,
        "--repetitions"@ != "--output"@,
        "--tasks"@ != "--zones"@,
        "--tasks"@ != "--duration-ms"@,
        "--tasks"@ != "--max-robots"@,
        "--tasks"@ != "--output"@,
        "--zones"@ != "--duration-ms"@,
        "--zones"@ != "--max-robots"@,
        "--zones"@ != "--output"@,
        "--duration-ms"@ != "--max-robots"@,
        "--duration-ms"@ != "--output"@,
        "--max-robots"@ != "--output"@,
{
    reveal_strlit("-h");
    reveal_strlit("--help");
    reveal_strlit("--repetitions");
    reveal_strlit("--tasks");
    reveal_strlit("--zones");
    reveal_strlit("--duration-ms");
    reveal_strlit("--max-robots");
    reveal_strlit("--output");
    assert("-h"@.len() == 2 && "--help"@.len() == 6 && "--output"@.len() == 8);
    assert("--repetitions"@.len() == 13 && "--duration-ms"@.len() == 13);
    assert("--tasks"@.len() == 7 && "--zones"@.len() == 7 && "--max-robots"@.len() == 12);
    assert("--repetitions"@[2] != "--duration-ms"@[2]);
    assert("--tasks"@[2] != "--zones"@[2]);
}

/// Whether `flag` is one of those that take a number, and `limit` the least number too large for it.
pub open spec fn takes_number(flag: Seq<char>, limit: nat) -> bool {
    ||| flag == "--repetitions"@ && limit == 0x1_0000_0000
    ||| flag == "--tasks"@ && limit == 0x1_0000_0000
    ||| flag == "--zones"@ && limit == 0x1_0000_0000
    ||| flag == "--max-robots"@ && limit == 0x1_0000_0000
    ||| flag == "--duration-ms"@ && limit == 0x1_0000_0000_0000_0000
}

/// An option with a number behind accepted arguments sets that number, and no other, overriding what
/// the arguments before it said; it is refused if its value stands for no number, for too large a
/// one or for zero.
pub proof fn law_number_option_is_read(
    args: Vec<String>,
    before: Config,
    more: Vec<String>,
    read: Result<Option<Config>, String>,
    flag: Seq<char>,
    limit: nat,
)
    requires
        call_ensures(benchmark::parse_args, (&args,), Ok(Some(before))),
        call_ensures(benchmark::parse_args, (&more,), read),
        more@.len() == args@.len() + 2,
        more@.take(args@.len() as int) == args@,
        more@[args@.len() as int]@ == flag,
        takes_number(flag, limit),
    ensures
        ({
            let raw = more@[more@.len() - 1]@;
            let number = numerals::unsigned_value(raw);
            if number is None || number->0 >= limit {
                read matches Err(message) && message@ == "invalid value for "@ + flag + ": "@ + raw
            } else if number->0 == 0 {
                read matches Err(message) && message@ == flag + " must be greater than zero"@
            } else {
                let n = number->0;
                &&& read matches Ok(Some(config)) && {
                    &&& config.repetitions == if flag == "--repetitions"@ {
                        n
                    } else {
                        before.repetitions as nat
                    }
                    &&& config.tasks == if flag == "--tasks"@ {
                        n
                    } else {
                        before.tasks as nat
                    }
                    &&& config.zones == if flag == "--zones"@ {
                        n
                    } else {
                        before.zones as nat
                    }
                    &&& config.duration_ms == if flag == "--duration-ms"@ {
                        n
                    } else {
                        before.duration_ms as nat
                    }
                    &&& config.max_robots == if flag == "--max-robots"@ {
                        n
                    } else {
                        before.max_robots as nat
                    }
                    &&& config.output@ == before.output@
                }
            }
        }),
{
    let texts = benchmark::texts(args@);
    let tail = seq![flag, more@[more@.len() - 1]@];
    lemma_flags_differ();
    lemma_read_in_turn(texts, ConfigView::defaults(), tail);
    assert(benchmark::texts(more@) =~= texts + tail) by {
        assert forall|k: int| 0 <= k < args@.len() implies more@[k] == args@[k] by {
            assert(more@.take(args@.len() as int)[k] == args@[k]);
        }
    }
    assert(tail.skip(2) =~= Seq::<Seq<char>>::empty());
    reveal_with_fuel(benchmark::requested, 2);
}

/// The option for the output sets the directory, and nothing else.
pub proof fn law_output_option_is_read(
    args: Vec<String>,
    before: Config,
    more: Vec<String>,
    read: Result<Option<Config>, String>,
)
    requires
        call_ensures(benchmark::parse_args, (&args,), Ok(Some(before))),
        call_ensures(benchmark::parse_args, (&more,), read),
        more@.len() == args@.len() + 2,
        more@.take(args@.len() as int) == args@,
        more@[args@.len() as int]@ == "--output"@,
    ensures
        read matches Ok(Some(config)) && {
            &&& config.repetitions == before.repetitions
            &&& config.tasks == before.tasks
            &&& config.zones == before.zones
            &&& config.duration_ms == before.duration_ms
            &&& config.max_robots == before.max_robots
            &&& config.output@ == more@[more@.len() - 1]@
        },
{
    let texts = benchmark::texts(args@);
    let tail = seq!["--output"@, more@[more@.len() - 1]@];
    lemma_flags_differ();
    lemma_read_in_turn(texts, ConfigView::defaults(), tail);
    assert(benchmark::texts(more@) =~= texts + tail) by {
        assert forall|k: int| 0 <= k < args@.len() implies more@[k] == args@[k] by {
            assert(more@.take(args@.len() as int)[k] == args@[k]);
        }
    }
    assert(tail.skip(2) =~= Seq::<Seq<char>>::empty());
    reveal_with_fuel(benchmark::requested, 2);
}

/// Behind accepted arguments, a word for help gives the help, whatever follows; an option without
/// its value is refused, and so is a word that is no option, whatever follows.
pub proof fn law_last_word_is_read(
    args: Vec<String>,
    before: Config,
    more: Vec<String>,
    read: Result<Option<Config>, String>,
    limit: nat,
)
    requires
        call_ensures(benchmark::parse_args, (&args,), Ok(Some(before))),
        call_ensures(benchmark::parse_args, (&more,), read),
        more@.len() > args@.len(),
        more@.take(args@.len() as int) == args@,
        limit == 0x1_0000_0000 || limit == 0x1_0000_0000_0000_0000,
    ensures
        ({
            let word = more@[args@.len() as int]@;
            let last = more@.len() == args@.len() + 1;
            &&& word == "-h"@ || word == "--help"@ ==> (read matches Ok(None))
            &&& takes_number(word, limit) && last ==> (read matches Err(message) && message@ == word
                + " requires a value"@)
            &&& word == "--output"@ && last ==> (read matches Err(message) && message@
                == "--output requires a path"@)
            &&& !(word == "-h"@ || word == "--help"@ || word == "--output"@ || takes_number(
                word,
                0x1_0000_0000,
            ) || takes_number(word, 0x1_0000_0000_0000_0000)) ==> (read matches Err(message)
                && message@ == "unknown option: "@ + word + "\n\n"@ + benchmark::USAGE@)
        }),
{
    let texts = benchmark::texts(args@);
    let tail = benchmark::texts(more@).skip(args@.len() as int);
    lemma_flags_differ();
    lemma_read_in_turn(texts, ConfigView::defaults(), tail);
    assert(benchmark::texts(more@) =~= texts + tail) by {
        assert forall|k: int| 0 <= k < args@.len() implies more@[k] == args@[k] by {
            assert(more@.take(args@.len() as int)[k] == args@[k]);
        }
    }
    assert(tail[0] == more@[args@.len() as int]@);
}

/// What was refused, or answered with the help, when every option had its value stays so, with the
/// same words, whatever follows.
pub proof fn law_refusal_is_final(
    args: Vec<String>,
    first: Result<Option<Config>, String>,
    more: Vec<String>,
    read: Result<Option<Config>, String>,
)
    requires
        call_ensures(benchmark::parse_args, (&args,), first),
        call_ensures(benchmark::parse_args, (&more,), read),
        args@.len() % 2 == 0,
        more@.len() >= args@.len(),
        more@.take(args@.len() as int) == args@,
    ensures
        first matches Ok(None) ==> (read matches Ok(None)),
        first matches Err(message) ==> (read matches Err(same) && same@ == message@),
{
    let texts = benchmark::texts(args@);
    let tail = benchmark::texts(more@).skip(args@.len() as int);
    lemma_read_in_turn(texts, ConfigView::defaults(), tail);
    assert(benchmark::texts(more@) =~= texts + tail) by {
        assert forall|k: int| 0 <= k < args@.len() implies more@[k] == args@[k] by {
            assert(more@.take(args@.len() as int)[k] == args@[k]);
        }
    }
}

} // verus!
