use vstd::prelude::*;
use crate::text::{copy_opt_text, first_text, opt_text, or_else, Duplicate};

verus! {

/// The moment in a session at which a hook runs.
#[derive(Debug, Clone, Copy, PartialEq, Eq, Hash, Structural)]
pub enum HookTrigger {
    /// When the agent starts.
    AgentSpawn,
    /// When the user sends a prompt.
    UserPromptSubmit,
    /// Before a tool runs.
    PreToolUse,
    /// After a tool has run.
    PostToolUse,
    /// When the assistant has finished its answer.
    Stop,
}

/// The five triggers, in their fixed order.
pub open spec fn trigger_order() -> Seq<HookTrigger> {
    seq![
        HookTrigger::AgentSpawn,
        HookTrigger::UserPromptSubmit,
        HookTrigger::PreToolUse,
        HookTrigger::PostToolUse,
        HookTrigger::Stop,
    ]
}

impl HookTrigger {
    /// The name under which a manifest lists the hooks of this trigger.
    pub open spec fn spec_name(self) -> Seq<char> {
        match self {
            HookTrigger::AgentSpawn => "agentSpawn"@,
            HookTrigger::UserPromptSubmit => "userPromptSubmit"@,
            HookTrigger::PreToolUse => "preToolUse"@,
            HookTrigger::PostToolUse => "postToolUse"@,
            HookTrigger::Stop => "stop"@,
        }
    }

    /// The name under which a manifest lists the hooks of this trigger.
    pub fn name(&self) -> (s: &'static str)
        ensures
            s@ == self.spec_name(),
    {
        match self {
            HookTrigger::AgentSpawn => "agentSpawn",
            HookTrigger::UserPromptSubmit => "userPromptSubmit",
            HookTrigger::PreToolUse => "preToolUse",
            HookTrigger::PostToolUse => "postToolUse",
            HookTrigger::Stop => "stop",
        }
    }

    /// Every trigger, in the fixed order.
    pub fn all() -> (v: Vec<HookTrigger>)
        ensures
            v@ == trigger_order(),
    {
        let v = vec![
            HookTrigger::AgentSpawn,
            HookTrigger::UserPromptSubmit,
            HookTrigger::PreToolUse,
            HookTrigger::PostToolUse,
            HookTrigger::Stop,
        ];
        assert(v@ =~= trigger_order());
        v
    }
}

/// A command that runs at a trigger. A field that holds zero, the empty string or
/// nothing counts as not set.
#[derive(Debug, Clone, PartialEq, Eq, Default)]
pub struct Hook {
    /// The command to run.
    pub command: String,
    /// How long the command may run, in milliseconds.
    pub timeout_ms: u64,
    /// The size at which the command's output is cut.
    pub max_output_size: usize,
    /// How long the output is kept before the command runs again, in seconds.
    pub cache_ttl_seconds: u64,
    /// The pattern a tool's name has to match for the hook to run.
    pub matcher: Option<String>,
}

/// What a hook holds.
pub struct HookView {
    pub command: Seq<char>,
    pub timeout_ms: u64,
    pub max_output_size: usize,
    pub cache_ttl_seconds: u64,
    pub matcher: Option<Seq<char>>,
}

impl View for Hook {
    type V = HookView;

    open spec fn view(&self) -> HookView {
        HookView {
            command: self.command@,
            timeout_ms: self.timeout_ms,
            max_output_size: self.max_output_size,
            cache_ttl_seconds: self.cache_ttl_seconds,
            matcher: opt_text(self.matcher),
        }
    }
}

/// The hook that `higher` and `lower` give together: each field is that of `higher`
/// where it is set, else that of `lower`.
pub open spec fn merge_hook(higher: HookView, lower: HookView) -> HookView {
    HookView {
        command: if higher.command.len() == 0 {
            lower.command
        } else {
            higher.command
        },
        timeout_ms: if higher.timeout_ms == 0 {
            lower.timeout_ms
        } else {
            higher.timeout_ms
        },
        max_output_size: if higher.max_output_size == 0 {
            lower.max_output_size
        } else {
            higher.max_output_size
        },
        cache_ttl_seconds: if higher.cache_ttl_seconds == 0 {
            lower.cache_ttl_seconds
        } else {
            higher.cache_ttl_seconds
        },
        matcher: or_else(higher.matcher, lower.matcher),
    }
}

/// Merging a hook with itself changes nothing.
pub proof fn lemma_merge_hook_idempotent(h: HookView)
    ensures
        merge_hook(h, h) == h,
{
}

impl Hook {
    /// Fills the fields that are not set from `lower`.
    pub fn merge(self, lower: Hook) -> (merged: Hook)
        ensures
            merged@ == merge_hook(self@, lower@),
    {
        let command = if self.command.as_str().unicode_len() == 0 {
            lower.command
        } else {
            self.command
        };
        Hook {
            command,
            timeout_ms: if self.timeout_ms == 0 {
                lower.timeout_ms
            } else {
                self.timeout_ms
            },
            max_output_size: if self.max_output_size == 0 {
                lower.max_output_size
            } else {
                self.max_output_size
            },
            cache_ttl_seconds: if self.cache_ttl_seconds == 0 {
                lower.cache_ttl_seconds
            } else {
                self.cache_ttl_seconds
            },
            matcher: first_text(self.matcher, lower.matcher),
        }
    }
}

impl Duplicate for Hook {
    fn duplicate(&self) -> (copy: Hook) {
        Hook {
            command: self.command.clone(),
            timeout_ms: self.timeout_ms,
            max_output_size: self.max_output_size,
            cache_ttl_seconds: self.cache_ttl_seconds,
            matcher: copy_opt_text(&self.matcher),
        }
    }
}

} // verus!
