//! What a finished request cost, and how that is reported.
//!
//! Durations are whole milliseconds, the cost is in millionths of a
//! dollar. Written out, the cost is rounded to four decimals and a
//! duration to hundredths of a second, halves up.

use vstd::prelude::*;
use vstd::string::*;
use crate::text::{decimal, digit, digit_char, push_char, push_decimal};

verus! {

/// The token counts that the agent reports for a request.
#[derive(Debug, Clone, Copy, PartialEq, Eq, Structural)]
pub struct UsageData {
    pub input_tokens: u64,
    pub output_tokens: u64,
    pub cache_creation_input_tokens: u64,
    pub cache_read_input_tokens: u64,
}

/// The event that ends a response: the final text and the figures of the
/// request.
#[derive(Debug)]
pub struct ResultMessage {
    pub subtype: String,
    pub duration_ms: u64,
    pub duration_api_ms: u64,
    pub is_error: bool,
    pub num_turns: u32,
    pub session_id: String,
    /// In millionths of a dollar.
    pub total_cost_usd: Option<u64>,
    /// `None` where the agent reported no usage, or none that could be read.
    pub usage: Option<UsageData>,
    pub result: Option<String>,
}

impl Clone for ResultMessage {
    fn clone(&self) -> (res: ResultMessage)
        ensures
            res == *self,
    {
        ResultMessage {
            subtype: self.subtype.clone(),
            duration_ms: self.duration_ms,
            duration_api_ms: self.duration_api_ms,
            is_error: self.is_error,
            num_turns: self.num_turns,
            session_id: self.session_id.clone(),
            total_cost_usd: self.total_cost_usd,
            usage: self.usage,
            result: match &self.result {
                Some(text) => Some(text.clone()),
                None => None,
            },
        }
    }
}

/// The figures of one request.
#[derive(Debug)]
pub struct UsageMetrics {
    pub input_tokens: u64,
    pub output_tokens: u64,
    pub total_tokens: u64,
    pub cache_creation_input_tokens: u64,
    pub cache_read_input_tokens: u64,
    /// In millionths of a dollar.
    pub cost_usd: Option<u64>,
    pub duration_ms: u64,
    pub duration_api_ms: u64,
    pub num_turns: u32,
    pub session_id: String,
}

/// The sum of the two counts, or the largest `u64` where it does not fit.
pub open spec fn total_of(input: u64, output: u64) -> u64 {
    if input + output > u64::MAX {
        u64::MAX
    } else {
        (input + output) as u64
    }
}

/// The token counts of a result; all zero where it carries no usage.
pub open spec fn usage_of(result: ResultMessage) -> UsageData {
    match result.usage {
        Some(usage) => usage,
        None => UsageData {
            input_tokens: 0,
            output_tokens: 0,
            cache_creation_input_tokens: 0,
            cache_read_input_tokens: 0,
        },
    }
}

/// The figures that a result carries.
pub open spec fn usage_metrics(result: ResultMessage) -> UsageMetrics {
    UsageMetrics {
        input_tokens: usage_of(result).input_tokens,
        output_tokens: usage_of(result).output_tokens,
        total_tokens: total_of(usage_of(result).input_tokens, usage_of(result).output_tokens),
        cache_creation_input_tokens: usage_of(result).cache_creation_input_tokens,
        cache_read_input_tokens: usage_of(result).cache_read_input_tokens,
        cost_usd: result.total_cost_usd,
        duration_ms: result.duration_ms,
        duration_api_ms: result.duration_api_ms,
        num_turns: result.num_turns,
        session_id: result.session_id,
    }
}

/// The last `digits` decimal digits of `value`, with leading zeros.
pub open spec fn fraction(value: nat, digits: nat) -> Seq<char>
    decreases digits,
{
    if digits == 0 {
        Seq::empty()
    } else {
        fraction(value / 10, (digits - 1) as nat).push(digit_char((value % 10) as int))
    }
}

/// A cost of `micros` millionths of a dollar, rounded to four decimals.
pub open spec fn cost_text(cost: Option<u64>) -> Seq<char> {
    match cost {
        Some(micros) => "$"@ + decimal(((micros + 50) / 100 / 10_000) as nat) + "."@ + fraction(
            ((micros + 50) / 100 % 10_000) as nat,
            4,
        ) + " USD"@,
        None => "N/A"@,
    }
}

/// A duration of `millis` milliseconds in seconds with two decimals.
pub open spec fn seconds_text(millis: u64) -> Seq<char> {
    decimal(((millis + 5) / 10 / 100) as nat) + "."@ + fraction(((millis + 5) / 10 % 100) as nat, 2)
}

/// The lines that report the figures: tokens, cost, durations, turns and
/// session, and the cache counts where one of them is not zero.
pub open spec fn metrics_text(metrics: UsageMetrics) -> Seq<char> {
    "📊 *Query Metrics*\n• Tokens: "@ + decimal(metrics.input_tokens as nat) + " input + "@
        + decimal(metrics.output_tokens as nat) + " output = *"@ + decimal(
        metrics.total_tokens as nat,
    ) + " total*\n• Cost: "@ + cost_text(metrics.cost_usd) + "\n• Duration: "@ + seconds_text(
        metrics.duration_ms,
    ) + "s (API: "@ + seconds_text(metrics.duration_api_ms) + "s)\n• Turns: "@ + decimal(
        metrics.num_turns as nat,
    ) + "\n• Session: `"@ + metrics.session_id@ + "`"@ + (if metrics.cache_creation_input_tokens
        > 0 || metrics.cache_read_input_tokens > 0 {
        "\n• Cache: "@ + decimal(metrics.cache_creation_input_tokens as nat) + " created, "@
            + decimal(metrics.cache_read_input_tokens as nat) + " read"@
    } else {
        Seq::empty()
    })
}

/// Appends the last `digits` decimal digits of `value`.
pub fn push_fraction(out: &mut String, value: u128, digits: u32)
    ensures
        final(out)@ == old(out)@ + fraction(value as nat, digits as nat),
    decreases digits,
{
    if digits > 0 {
        push_fraction(out, value / 10, digits - 1);
        push_char(out, digit(value % 10));
    }
}

/// Appends a cost, rounded to four decimals.
pub fn push_cost(out: &mut String, cost: Option<u64>)
    ensures
        final(out)@ == old(out)@ + cost_text(cost),
{
    match cost {
        Some(micros) => {
            let rounded: u128 = (micros as u128 + 50) / 100;
            out.append("$");
            push_decimal(out, rounded / 10_000);
            out.append(".");
            push_fraction(out, rounded % 10_000, 4);
            out.append(" USD");
        },
        None => {
            out.append("N/A");
        },
    }
}

/// Appends a duration in seconds with two decimals.
pub fn push_seconds(out: &mut String, millis: u64)
    ensures
        final(out)@ == old(out)@ + seconds_text(millis),
{
    let rounded: u128 = (millis as u128 + 5) / 10;
    push_decimal(out, rounded / 100);
    out.append(".");
    push_fraction(out, rounded % 100, 2);
}

impl UsageMetrics {
    /// The figures that a result carries.
    pub fn from_result_message(result: &ResultMessage) -> (res: UsageMetrics)
        ensures
            res == usage_metrics(*result),
    {
        let (input_tokens, output_tokens, cache_creation, cache_read) = match result.usage {
            Some(usage) => (
                usage.input_tokens,
                usage.output_tokens,
                usage.cache_creation_input_tokens,
                usage.cache_read_input_tokens,
            ),
            None => (0, 0, 0, 0),
        };
        UsageMetrics {
            input_tokens,
            output_tokens,
            total_tokens: input_tokens.saturating_add(output_tokens),
            cache_creation_input_tokens: cache_creation,
            cache_read_input_tokens: cache_read,
            cost_usd: result.total_cost_usd,
            duration_ms: result.duration_ms,
            duration_api_ms: result.duration_api_ms,
            num_turns: result.num_turns,
            session_id: result.session_id.clone(),
        }
    }

    /// The figures as a message for the channel.
    pub fn format_slack_message(&self) -> (res: String)
        ensures
            res@ == metrics_text(*self),
    {
        let mut message = String::from_str("📊 *Query Metrics*\n• Tokens: ");
        push_decimal(&mut message, self.input_tokens as u128);
        message.append(" input + ");
        push_decimal(&mut message, self.output_tokens as u128);
        message.append(" output = *");
        push_decimal(&mut message, self.total_tokens as u128);
        message.append(" total*\n• Cost: ");
        push_cost(&mut message, self.cost_usd);
        message.append("\n• Duration: ");
        push_seconds(&mut message, self.duration_ms);
        message.append("s (API: ");
        push_seconds(&mut message, self.duration_api_ms);
        message.append("s)\n• Turns: ");
        push_decimal(&mut message, self.num_turns as u128);
        message.append("\n• Session: `");
        message.append(self.session_id.as_str());
        message.append("`");
        if self.cache_creation_input_tokens > 0 || self.cache_read_input_tokens > 0 {
            message.append("\n• Cache: ");
            push_decimal(&mut message, self.cache_creation_input_tokens as u128);
            message.append(" created, ");
            push_decimal(&mut message, self.cache_read_input_tokens as u128);
            message.append(" read");
        }
        assert(message@ =~= metrics_text(*self));
        message
    }
}

} // verus!
