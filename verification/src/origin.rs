//! Telling the generator of an image from the text of its metadata.

use vstd::prelude::*;

verus! {

/// The generator that an image is attributed to.
#[derive(Clone, Copy, Debug, PartialEq, Eq, Structural)]
pub enum TargetType {
    /// Metadata that embeds a node workflow.
    ComfyUI,
    /// Metadata that holds a parameter string.
    WebUI,
    /// No known generator left a trace.
    Unclassified,
}

/// `marker` stands somewhere in `text`, character for character.
pub open spec fn occurs_in(text: Seq<char>, marker: Seq<char>) -> bool {
    exists|i: int|
        0 <= i && i + marker.len() <= text.len() && #[trigger] text.subrange(
            i,
            i + marker.len(),
        ) == marker
}

/// At least one of `markers` stands in `text`.
pub open spec fn any_occurs(text: Seq<char>, markers: Seq<Seq<char>>) -> bool {
    exists|k: int| 0 <= k < markers.len() && occurs_in(text, #[trigger] markers[k])
}

/// The texts of a list of strings.
pub open spec fn texts(list: Seq<String>) -> Seq<Seq<char>> {
    Seq::new(list.len(), |k: int| list[k]@)
}

/// The generator that `text` points to: the first list wins over the second.
pub open spec fn origin_of(text: Seq<char>, markers: MarkerModel) -> TargetType {
    if any_occurs(text, markers.comfy) {
        TargetType::ComfyUI
    } else if any_occurs(text, markers.webui) {
        TargetType::WebUI
    } else {
        TargetType::Unclassified
    }
}

/// The verdict on a probe run: a failed probe gives no usable text.
pub open spec fn verdict_of(text: Seq<char>, succeeded: bool, markers: MarkerModel) -> TargetType {
    if succeeded {
        origin_of(text, markers)
    } else {
        TargetType::Unclassified
    }
}

/// The markers that stand for each generator, as plain texts.
pub struct MarkerModel {
    pub comfy: Seq<Seq<char>>,
    pub webui: Seq<Seq<char>>,
}

/// The marker texts of the built-in lists.
pub open spec fn standard_markers() -> MarkerModel {
    MarkerModel {
        comfy: seq!["ComfyUI"@, "workflow"@, "generation_data"@],
        webui: seq!["parameters"@, "Stable Diffusion"@, "NovelAI"@, "Software"@, "Steps: "@],
    }
}

/// The substrings whose presence reveals a generator. The lists can be
/// extended; the order inside a list has no effect on the verdict.
#[derive(Debug)]
pub struct MarkerSet {
    pub comfy: Vec<String>,
    pub webui: Vec<String>,
}

impl View for MarkerSet {
    type V = MarkerModel;

    open spec fn view(&self) -> MarkerModel {
        MarkerModel { comfy: texts(self.comfy@), webui: texts(self.webui@) }
    }
}

/// `str::contains` of std with a string as the pattern: whether the pattern
/// matches a sub-slice of the text. A match of whole strings on UTF-8 is a
/// match of their characters, which is what the contract states.
#[verifier::external_body]
fn text_contains(text: &str, marker: &str) -> (found: bool)
    ensures
        found == occurs_in(text@, marker@),
{
    text.contains(marker)
}

/// Whether one of `markers` stands in `text`.
pub fn contains_any(text: &str, markers: &Vec<String>) -> (found: bool)
    ensures
        found == any_occurs(text@, texts(markers@)),
{
    let mut k: usize = 0;
    while k < markers.len()
        invariant
            k <= markers.len(),
            forall|j: int| 0 <= j < k ==> !occurs_in(text@, #[trigger] texts(markers@)[j]),
        decreases markers.len() - k,
    {
        if text_contains(text, markers[k].as_str()) {
            assert(occurs_in(text@, texts(markers@)[k as int]));
            return true;
        }
        k += 1;
    }
    false
}

impl MarkerSet {
    /// The built-in lists.
    pub fn standard() -> (markers: MarkerSet)
        ensures
            markers@ == standard_markers(),
    {
        let mut comfy: Vec<String> = Vec::new();
        comfy.push("ComfyUI".to_owned());
        comfy.push("workflow".to_owned());
        comfy.push("generation_data".to_owned());
        let mut webui: Vec<String> = Vec::new();
        webui.push("parameters".to_owned());
        webui.push("Stable Diffusion".to_owned());
        webui.push("NovelAI".to_owned());
        webui.push("Software".to_owned());
        webui.push("Steps: ".to_owned());
        let markers = MarkerSet { comfy, webui };
        assert(markers@.comfy =~= standard_markers().comfy);
        assert(markers@.webui =~= standard_markers().webui);
        markers
    }
}

/// The generator that the probe's text points to.
pub fn detect(text: &str, markers: &MarkerSet) -> (target: TargetType)
    ensures
        target == origin_of(text@, markers@),
{
    if contains_any(text, &markers.comfy) {
        TargetType::ComfyUI
    } else if contains_any(text, &markers.webui) {
        TargetType::WebUI
    } else {
        TargetType::Unclassified
    }
}

/// The verdict on one probe run. The text of a probe that failed is not read.
pub fn classify(text: &str, succeeded: bool, markers: &MarkerSet) -> (target: TargetType)
    ensures
        target == verdict_of(text@, succeeded, markers@),
{
    if !succeeded {
        return TargetType::Unclassified;
    }
    detect(text, markers)
}

/// A text that holds a marker of each list is attributed to the first list.
pub proof fn law_workflow_markers_win(text: Seq<char>, markers: MarkerModel)
    requires
        any_occurs(text, markers.comfy),
        any_occurs(text, markers.webui),
    ensures
        origin_of(text, markers) == TargetType::ComfyUI,
        verdict_of(text, true, markers) == TargetType::ComfyUI,
{
}

/// A probe that failed gives no generator, whatever it printed.
pub proof fn law_failed_probe_is_unclassified(text: Seq<char>, markers: MarkerModel)
    ensures
        verdict_of(text, false, markers) == TargetType::Unclassified,
{
}

} // verus!
