//! What a command line that is accepted comes to.
use crate::benchmark;
use crate::benchmark::{ConfigView, Request};
use vstd::prelude::*;

verus! {

/// A command line that is accepted leaves every number positive.
pub proof fn law_accepted_options_are_positive(args: Seq<Seq<char>>, config: ConfigView)
    requires
        config.positive(),
    ensures
        benchmark::requested(args, config) matches Request::Run(read) ==> read.positive(),
    decreases args.len(),
{
    if args.len() > 1 {
        let rest = args.skip(2);
        if config.with_number(args[0], 0) is Some {
            let n = crate::numerals::unsigned_value(args[1])->0;
            let limit = ConfigView::number_limit(args[0]);
            benchmark::lemma_duration_flag_differs();
            if benchmark::positive_refusal(args[0], Some(args[1]), limit) is None {
                law_accepted_options_are_positive(rest, config.with_number(args[0], n)->0);
            }
        } else if args[0] == "--output"@ {
            law_accepted_options_are_positive(rest, ConfigView { output: args[1], ..config });
        }
    }
}

} // verus!
