//! iOS simulators, driven through `xcrun simctl`.
use vstd::prelude::*;
use crate::pattern::{match_view, regex_first_match, regex_first_match_in};
use crate::platform::{PlatformError, PlatformErrorView};
use crate::platform::android::{text_result_view, unit_result_view};
use crate::shell::{ShellOutput, ShellOutputView, run_view};
use crate::text::{contains, decimal, join, join_with, push_decimal, str_contains};

verus! {

/// The pattern that picks an iPhone model name out of the simulator list.
pub const IPHONE_PATTERN: &'static str = "(iPhone \\d{1,2} Pro Max|iPhone \\d{1,2} Pro|iPhone \\d{1,2})";

/// The range of iPhone generations whose simulators are looked for.
#[derive(Debug)]
pub struct IOS {
    pub min: u16,
    pub max: u16,
}

/// The name of one iPhone model: generation `n` with the given suffix.
pub open spec fn iphone_model(n: nat, suffix: Seq<char>) -> Seq<char> {
    "iPhone "@ + decimal(n) + suffix
}

/// The three model names of generation `n`: plain, Pro and Max.
pub open spec fn generation_models(n: nat) -> Seq<Seq<char>> {
    seq![iphone_model(n, Seq::empty()), iphone_model(n, " Pro"@), iphone_model(n, " Max"@)]
}

/// The model names of the `count` generations from `first` on, in order.
pub open spec fn models_from(first: nat, count: nat) -> Seq<Seq<char>>
    decreases count,
{
    if count == 0 {
        Seq::empty()
    } else {
        models_from(first, (count - 1) as nat) + generation_models((first + count - 1) as nat)
    }
}

/// The model names of generations `min` to `max`, both included.
pub open spec fn model_names_of(min: u16, max: u16) -> Seq<Seq<char>> {
    if min <= max {
        models_from(min as nat, (max - min + 1) as nat)
    } else {
        Seq::empty()
    }
}

/// The shell command that lists booted simulators whose line matches `pattern`.
pub open spec fn booted_query_text(pattern: Seq<char>) -> Seq<char> {
    "xcrun simctl list devices | grep -E \""@ + pattern + "\" | grep Booted"@
}

/// The shell command that boots the named simulator.
pub open spec fn boot_simulator_command_text(device: Seq<char>) -> Seq<char> {
    "xcrun simctl boot \""@ + device + "\""@
}

/// Whether booting succeeded, from the boot command's outcome.
pub open spec fn boot_simulator_result(
    device: Seq<char>,
    run: Result<ShellOutputView, Seq<char>>,
) -> Result<(), PlatformErrorView> {
    match run {
        Err(e) => Err(PlatformErrorView::Io(e)),
        Ok(out) => if !out.success || out.stderr.len() != 0 {
            Err(PlatformErrorView::SimulatorBootFailed(device))
        } else {
            Ok(())
        },
    }
}

/// Whether the listing shows a booted simulator, from the query's outcome.
pub open spec fn booted_listing_result(run: Result<ShellOutputView, Seq<char>>) -> Result<
    (),
    PlatformErrorView,
> {
    match run {
        Err(e) => Err(PlatformErrorView::Io(e)),
        Ok(out) => if !out.success || !contains(out.stdout, "Booted"@) || out.stderr.len() != 0 {
            Err(PlatformErrorView::NoSimulatorRunning)
        } else {
            Ok(())
        },
    }
}

/// The simulator picked from the first iPhone match in a listing (`None`
/// when the pattern did not compile, `Some(None)` when nothing matched).
pub open spec fn simulator_from_match_result(m: Option<Option<Seq<char>>>) -> Result<
    Seq<char>,
    PlatformErrorView,
> {
    match m {
        Some(Some(name)) => Ok(name),
        _ => Err(PlatformErrorView::NoSimulatorFound),
    }
}

/// The running simulator's model name, from the outcome of the query for
/// booted iPhone simulators.
pub open spec fn simulator_running_result(run: Result<ShellOutputView, Seq<char>>) -> Result<
    Seq<char>,
    PlatformErrorView,
> {
    match booted_listing_result(run) {
        Err(e) => Err(e),
        Ok(()) => match regex_first_match(IPHONE_PATTERN@, run->Ok_0.stdout) {
            Some(name) => Ok(name),
            None => Err(PlatformErrorView::NoSimulatorFound),
        },
    }
}

impl IOS {
    /// A range holding generation zero alone.
    pub fn new() -> (r: IOS)
        ensures
            r.min == 0,
            r.max == 0,
    {
        IOS { min: 0, max: 0 }
    }

    /// The shell command that boots the named simulator.
    pub fn boot_simulator_command(&self, device: &str) -> (c: String)
        ensures
            c@ == boot_simulator_command_text(device@),
    {
        String::from_str("xcrun simctl boot \"").concat(device).concat("\"")
    }

    /// Whether booting succeeded, from the outcome of `boot_simulator_command`.
    pub fn boot_simulator_outcome(&self, device: &str, run: Result<ShellOutput, String>) -> (r:
        Result<(), PlatformError>)
        ensures
            unit_result_view(&r) == boot_simulator_result(device@, run_view(&run)),
    {
        match run {
            Err(e) => Err(PlatformError::Io(e)),
            Ok(out) => if !out.success || !out.stderr.as_str().is_empty() {
                Err(PlatformError::SimulatorBootFailed(device.to_owned()))
            } else {
                Ok(())
            },
        }
    }

    /// The shell command that lists booted simulators matching `pattern`.
    pub fn booted_query_command(&self, pattern: &str) -> (c: String)
        ensures
            c@ == booted_query_text(pattern@),
    {
        String::from_str("xcrun simctl list devices | grep -E \"").concat(pattern).concat(
            "\" | grep Booted",
        )
    }

    /// The shell command that checks whether the named simulator is booted.
    pub fn simulator_running_by_device_command(&self, device: &str) -> (c: String)
        ensures
            c@ == booted_query_text(device@),
    {
        self.booted_query_command(device)
    }

    /// Whether a booted simulator was listed, from the outcome of a booted query.
    pub fn simulator_running_by_device_outcome(&self, run: Result<ShellOutput, String>) -> (r:
        Result<(), PlatformError>)
        ensures
            unit_result_view(&r) == booted_listing_result(run_view(&run)),
    {
        match run {
            Err(e) => Err(PlatformError::Io(e)),
            Ok(out) => if !out.success || !str_contains(out.stdout.as_str(), "Booted")
                || !out.stderr.as_str().is_empty() {
                Err(PlatformError::NoSimulatorRunning)
            } else {
                Ok(())
            },
        }
    }

    /// The model names of every generation in the range, three per generation.
    pub fn model_names(&self) -> (names: Vec<String>)
        ensures
            names.deep_view() == model_names_of(self.min, self.max),
    {
        let mut names: Vec<String> = Vec::new();
        let min = self.min as u32;
        let max = self.max as u32;
        let mut j: u32 = min;
        while j <= max
            invariant
                min == self.min,
                max == self.max,
                min <= j,
                min <= max ==> j <= max + 1,
                min > max ==> j == min,
                names.deep_view() == models_from(min as nat, (j - min) as nat),
            decreases max + 1 - j,
        {
            let mut plain = String::from_str("iPhone ");
            push_decimal(&mut plain, j as u64);
            let pro = plain.clone().concat(" Pro");
            let max_model = plain.clone().concat(" Max");
            let ghost before = names.deep_view();
            names.push(plain);
            names.push(pro);
            names.push(max_model);
            proof {
                let n = (j - min + 1) as nat;
                assert(models_from(min as nat, n) == models_from(min as nat, (n - 1) as nat)
                    + generation_models((min as nat + n - 1) as nat));
                assert(names.deep_view() =~= before + generation_models(j as nat));
            }
            j = j + 1;
        }
        names
    }

    /// The shell command that lists booted simulators of the range's models.
    pub fn simulator_running_command(&self) -> (c: String)
        ensures
            c@ == booted_query_text(join(model_names_of(self.min, self.max), "|"@)),
    {
        let names = self.model_names();
        let pattern = join_with(&names, "|");
        proof {
            assert(names@.map_values(|p: String| p@) =~= names.deep_view());
        }
        self.booted_query_command(pattern.as_str())
    }

    /// The simulator picked from the first iPhone match in a listing.
    pub fn simulator_from_match(m: Option<Option<String>>) -> (r: Result<String, PlatformError>)
        ensures
            text_result_view(&r) == simulator_from_match_result(
                match m {
                    Some(x) => Some(match_view(&x)),
                    None => None,
                },
            ),
    {
        match m {
            Some(Some(name)) => Ok(name),
            _ => Err(PlatformError::NoSimulatorFound),
        }
    }

    /// The running simulator's model name, from the outcome of
    /// `simulator_running_command`: the first iPhone model named in the
    /// listing of booted simulators.
    pub fn simulator_running_outcome(&self, run: Result<ShellOutput, String>) -> (r: Result<
        String,
        PlatformError,
    >)
        ensures
            text_result_view(&r) == simulator_running_result(run_view(&run)),
    {
        match run {
            Err(e) => Err(PlatformError::Io(e)),
            Ok(out) => if !out.success || !str_contains(out.stdout.as_str(), "Booted")
                || !out.stderr.as_str().is_empty() {
                Err(PlatformError::NoSimulatorRunning)
            } else {
                let m = regex_first_match_in(IPHONE_PATTERN, out.stdout.as_str());
                Self::simulator_from_match(m)
            },
        }
    }
}

/// Three model names per generation: plain, Pro and Max.
pub proof fn lemma_model_count(first: nat, count: nat)
    ensures
        models_from(first, count).len() == 3 * count,
        forall|k: nat| k < count ==> models_from(first, count)[3 * k as int] == #[trigger] iphone_model(first + k, Seq::empty()),
    decreases count,
{
    if count > 0 {
        lemma_model_count(first, (count - 1) as nat);
        let prev = models_from(first, (count - 1) as nat);
        assert forall|k: nat| k < count implies models_from(first, count)[3 * k as int] == #[trigger] iphone_model(first + k, Seq::empty()) by {
            if k < count - 1 {
                assert(models_from(first, count)[3 * k as int] == prev[3 * k as int]);
            } else {
                assert(3 * k == prev.len());
            }
        }
    }
}

} // verus!
