//! The system prompt for the driver model.

use vstd::prelude::*;
use crate::agent::skills::Skill;

verus! {

/// The fixed instructions every prompt starts with: ref conventions,
/// actionability, and the `task_complete`/`task_failed` contract.
pub const BASE_INSTRUCTIONS: &'static str = "You are driving a real Chrome/Edge browser to complete a task. \
Refs come from the snapshot text, e.g. `[e6]` -> ref \"e6\". Actions do not auto-return a new \
snapshot; call snapshot again after an action that may have changed the page. wait_for polls \
until text appears (or times out) -- prefer it over guessing a fixed delay. assert checks \
immediately (no polling) and is how you confirm a specific outcome actually happened; treat a \
failed assertion as a real problem to solve, not something to ignore. A popup or new tab opened \
as a side effect of an action (e.g. \"Sign in with Google\") attaches automatically but does NOT \
become active on its own -- call list_pages to see it and switch_page to start driving it. \
run_yaml runs a whole script of steps in one call when you already know the exact sequence \
needed, stopping at the first failing step.\n\n\
You MUST end every task by calling exactly one of task_complete or task_failed -- do not just \
stop responding. Call task_complete only once you have verified the outcome (e.g. via assert or \
by reading the snapshot), not merely after taking an action that you expect worked.";

/// The `## Skill` sections for `skills`, in order.
pub open spec fn skill_sections(skills: Seq<Skill>) -> Seq<char>
    decreases skills.len(),
{
    if skills.len() == 0 {
        Seq::empty()
    } else {
        skill_sections(skills.drop_last()) + "\n\n## Skill: "@ + skills.last().name@ + "\n"@
            + skills.last().body@
    }
}

/// The `## Caller guidance` section, omitted when absent or empty.
pub open spec fn guidance_section(guidance: Option<&str>) -> Seq<char> {
    match guidance {
        Some(g) => if g@.len() > 0 { "\n\n## Caller guidance\n"@ + g@ } else { Seq::empty() },
        None => Seq::empty(),
    }
}

/// The prompt: base instructions, the task, each skill, then the guidance.
pub open spec fn spec_system_prompt(task: Seq<char>, skills: Seq<Skill>, guidance: Option<&str>) -> Seq<char> {
    BASE_INSTRUCTIONS@ + "\n\n## Task\n"@ + task + skill_sections(skills) + guidance_section(guidance)
}

/// Builds the full system prompt: base instructions, the task itself,
/// then any attached skills, then optional caller guidance.
pub fn system_prompt(task: &str, skills: &[Skill], guidance: Option<&str>) -> (r: String)
    ensures
        r@ == spec_system_prompt(task@, skills@, guidance),
{
    let mut prompt = String::new();
    prompt.append(BASE_INSTRUCTIONS);
    prompt.append("\n\n## Task\n");
    prompt.append(task);
    let ghost head = prompt@;
    let mut i: usize = 0;
    assert(skills@.take(0) =~= Seq::<Skill>::empty());
    while i < skills.len()
        invariant
            i <= skills@.len(),
            prompt@ == head + skill_sections(skills@.take(i as int)),
        decreases skills.len() - i,
    {
        prompt.append("\n\n## Skill: ");
        prompt.append(skills[i].name.as_str());
        prompt.append("\n");
        prompt.append(skills[i].body.as_str());
        assert(skills@.take(i + 1).drop_last() =~= skills@.take(i as int));
        i += 1;
    }
    assert(skills@.take(skills@.len() as int) =~= skills@);
    match guidance {
        Some(g) => {
            if !g.is_empty() {
                prompt.append("\n\n## Caller guidance\n");
                prompt.append(g);
            }
        },
        None => {},
    }
    assert(prompt@ =~= spec_system_prompt(task@, skills@, guidance));
    prompt
}

} // verus!
