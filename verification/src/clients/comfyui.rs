//! The ComfyUI side of image generation: the SDXL text-to-image graph that is submitted,
//! and the decisions taken while polling ComfyUI's history for the finished image.

use vstd::prelude::*;
use crate::error::ServiceError;
use crate::text::str_eq;

verus! {

// ---------------------------------------------------------------------------
// The workflow graph.
// ---------------------------------------------------------------------------

/// One input of a workflow node, as it appears in the JSON graph ComfyUI receives.
#[derive(Clone, Debug, PartialEq, Eq)]
pub enum WorkflowInput {
    /// A JSON string.
    Text(String),
    /// A JSON integer.
    Int(i64),
    /// A JSON number given by its literal text (such as `1.0`).
    Number(String),
    /// A link to another node's output: `["node", output]`.
    Link(String, u32),
}

/// A node of the graph: its id, its class, and its named inputs in order.
#[derive(Clone, Debug)]
pub struct WorkflowNode {
    pub id: String,
    pub class_type: String,
    pub inputs: Vec<(String, WorkflowInput)>,
}

/// A ComfyUI prompt graph: its nodes, in the order they were added.
#[derive(Clone, Debug)]
pub struct Workflow {
    pub nodes: Vec<WorkflowNode>,
}

/// The mathematical value of a node input.
pub enum InputView {
    Text(Seq<char>),
    Int(int),
    Number(Seq<char>),
    Link(Seq<char>, nat),
}

/// The mathematical value of a node.
pub struct NodeView {
    pub id: Seq<char>,
    pub class_type: Seq<char>,
    pub inputs: Seq<(Seq<char>, InputView)>,
}

impl View for WorkflowInput {
    type V = InputView;

    open spec fn view(&self) -> InputView {
        match self {
            WorkflowInput::Text(s) => InputView::Text(s@),
            WorkflowInput::Int(i) => InputView::Int(*i as int),
            WorkflowInput::Number(s) => InputView::Number(s@),
            WorkflowInput::Link(n, o) => InputView::Link(n@, *o as nat),
        }
    }
}

/// The value of a named input.
pub open spec fn input_pair_view(p: (String, WorkflowInput)) -> (Seq<char>, InputView) {
    (p.0@, p.1@)
}

impl View for WorkflowNode {
    type V = NodeView;

    open spec fn view(&self) -> NodeView {
        NodeView {
            id: self.id@,
            class_type: self.class_type@,
            inputs: self.inputs@.map_values(|p: (String, WorkflowInput)| input_pair_view(p)),
        }
    }
}

impl View for Workflow {
    type V = Seq<NodeView>;

    open spec fn view(&self) -> Seq<NodeView> {
        self.nodes@.map_values(|n: WorkflowNode| n@)
    }
}

/// The node of a graph with the given id (the first one, should ids repeat).
pub open spec fn find_node(g: Seq<NodeView>, id: Seq<char>) -> Option<NodeView>
    decreases g.len(),
{
    if g.len() == 0 {
        None
    } else if g[0].id == id {
        Some(g[0])
    } else {
        find_node(g.drop_first(), id)
    }
}

/// The input of a node with the given name (the first one, should names repeat).
pub open spec fn find_input(inputs: Seq<(Seq<char>, InputView)>, key: Seq<char>) -> Option<InputView>
    decreases inputs.len(),
{
    if inputs.len() == 0 {
        None
    } else if inputs[0].0 == key {
        Some(inputs[0].1)
    } else {
        find_input(inputs.drop_first(), key)
    }
}

/// The input `key` of node `id`, if both exist.
pub open spec fn node_input(g: Seq<NodeView>, id: Seq<char>, key: Seq<char>) -> Option<InputView> {
    match find_node(g, id) {
        Some(n) => find_input(n.inputs, key),
        None => None,
    }
}

/// The SDXL text-to-image graph: checkpoint loader, empty latent, the two prompt
/// encoders, the sampler, the VAE decoder and the image saver; with a VAE override, a
/// VAE loader is added as node 10 and the decoder draws from it instead of the
/// checkpoint's own VAE (output 2 of node 4).
pub open spec fn sdxl_graph(
    ckpt: Seq<char>,
    positive: Seq<char>,
    negative: Seq<char>,
    width: int,
    height: int,
    steps: int,
    cfg_json: Seq<char>,
    seed: int,
    sampler: Seq<char>,
    scheduler: Seq<char>,
    vae: Option<Seq<char>>,
) -> Seq<NodeView> {
    let vae_ref = if vae is Some {
        InputView::Link("10"@, 0)
    } else {
        InputView::Link("4"@, 2)
    };
    let base = seq![
        NodeView {
            id: "4"@,
            class_type: "CheckpointLoaderSimple"@,
            inputs: seq![("ckpt_name"@, InputView::Text(ckpt))],
        },
        NodeView {
            id: "5"@,
            class_type: "EmptyLatentImage"@,
            inputs: seq![
                ("width"@, InputView::Int(width)),
                ("height"@, InputView::Int(height)),
                ("batch_size"@, InputView::Int(1)),
            ],
        },
        NodeView {
            id: "6"@,
            class_type: "CLIPTextEncode"@,
            inputs: seq![("text"@, InputView::Text(positive)), ("clip"@, InputView::Link("4"@, 1))],
        },
        NodeView {
            id: "7"@,
            class_type: "CLIPTextEncode"@,
            inputs: seq![("text"@, InputView::Text(negative)), ("clip"@, InputView::Link("4"@, 1))],
        },
        NodeView {
            id: "3"@,
            class_type: "KSampler"@,
            inputs: seq![
                ("seed"@, InputView::Int(seed)),
                ("steps"@, InputView::Int(steps)),
                ("cfg"@, InputView::Number(cfg_json)),
                ("sampler_name"@, InputView::Text(sampler)),
                ("scheduler"@, InputView::Text(scheduler)),
                ("denoise"@, InputView::Number("1.0"@)),
                ("model"@, InputView::Link("4"@, 0)),
                ("positive"@, InputView::Link("6"@, 0)),
                ("negative"@, InputView::Link("7"@, 0)),
                ("latent_image"@, InputView::Link("5"@, 0)),
            ],
        },
        NodeView {
            id: "8"@,
            class_type: "VAEDecode"@,
            inputs: seq![("samples"@, InputView::Link("3"@, 0)), ("vae"@, vae_ref)],
        },
        NodeView {
            id: "9"@,
            class_type: "SaveImage"@,
            inputs: seq![
                ("images"@, InputView::Link("8"@, 0)),
                ("filename_prefix"@, InputView::Text("facesguru"@)),
            ],
        },
    ];
    match vae {
        Some(name) => base.push(
            NodeView {
                id: "10"@,
                class_type: "VAELoader"@,
                inputs: seq![("vae_name"@, InputView::Text(name))],
            },
        ),
        None => base,
    }
}

/// Where the VAE decoder of the SDXL graph takes its VAE from, and the sampler settings
/// it carries: with a VAE override there is a VAE loader node 10 holding the file name
/// and the decoder reads output 0 of node 10; without one there is no node 10 and the
/// decoder reads output 2 (the baked VAE) of the checkpoint loader, node 4.
pub proof fn lemma_sdxl_vae_routing(
    ckpt: Seq<char>,
    positive: Seq<char>,
    negative: Seq<char>,
    width: int,
    height: int,
    steps: int,
    cfg_json: Seq<char>,
    seed: int,
    sampler: Seq<char>,
    scheduler: Seq<char>,
    vae: Option<Seq<char>>,
)
    ensures
        ({
            let g = sdxl_graph(ckpt, positive, negative, width, height, steps, cfg_json, seed, sampler, scheduler, vae);
            &&& vae is None ==> node_input(g, "8"@, "vae"@) == Some(InputView::Link("4"@, 2))
            &&& vae is None ==> find_node(g, "10"@) is None
            &&& vae is Some ==> node_input(g, "8"@, "vae"@) == Some(InputView::Link("10"@, 0))
            &&& vae is Some ==> (find_node(g, "10"@) matches Some(n) && n.class_type == "VAELoader"@)
            &&& vae is Some ==> node_input(g, "10"@, "vae_name"@) == Some(InputView::Text(vae->0))
            &&& node_input(g, "3"@, "sampler_name"@) == Some(InputView::Text(sampler))
            &&& node_input(g, "3"@, "scheduler"@) == Some(InputView::Text(scheduler))
        }),
{
    reveal_strlit("3");
    reveal_strlit("4");
    reveal_strlit("5");
    reveal_strlit("6");
    reveal_strlit("7");
    reveal_strlit("8");
    reveal_strlit("9");
    reveal_strlit("10");
    reveal_strlit("vae");
    reveal_strlit("samples");
    reveal_strlit("vae_name");
    reveal_strlit("seed");
    reveal_strlit("steps");
    reveal_strlit("cfg");
    reveal_strlit("sampler_name");
    reveal_strlit("scheduler");
    reveal_with_fuel(find_node, 9);
    reveal_with_fuel(find_input, 6);
    let g = sdxl_graph(ckpt, positive, negative, width, height, steps, cfg_json, seed, sampler, scheduler, vae);
    assert("8"@[0] != "4"@[0] && "8"@[0] != "5"@[0] && "8"@[0] != "6"@[0] && "8"@[0] != "7"@[0]
        && "8"@[0] != "3"@[0]);
    assert("3"@[0] != "4"@[0] && "3"@[0] != "5"@[0] && "3"@[0] != "6"@[0] && "3"@[0] != "7"@[0]);
    assert("10"@.len() != "8"@.len() && "10"@.len() != "9"@.len());
    assert("samples"@.len() != "vae"@.len());
    assert("seed"@.len() != "sampler_name"@.len() && "steps"@.len() != "sampler_name"@.len());
    assert("cfg"@.len() != "sampler_name"@.len());
    assert("seed"@.len() != "scheduler"@.len() && "steps"@.len() != "scheduler"@.len());
    assert("cfg"@.len() != "scheduler"@.len() && "sampler_name"@.len() != "scheduler"@.len());
}

/// The class of node `id`, if there is one.
pub open spec fn node_class(g: Seq<NodeView>, id: Seq<char>) -> Option<Seq<char>> {
    match find_node(g, id) {
        Some(n) => Some(n.class_type),
        None => None,
    }
}

/// How data flows through the SDXL graph: the checkpoint loader loads the requested
/// checkpoint; the sampler runs its model on an empty latent of the requested size with
/// the requested seed, steps and CFG scale, steered toward the text encoding of the
/// positive prompt and away from that of the negative prompt (both encoded with the
/// checkpoint's CLIP); the decoder decodes the sampler's output and the saver saves the
/// decoded image.
pub proof fn lemma_sdxl_dataflow(
    ckpt: Seq<char>,
    positive: Seq<char>,
    negative: Seq<char>,
    width: int,
    height: int,
    steps: int,
    cfg_json: Seq<char>,
    seed: int,
    sampler: Seq<char>,
    scheduler: Seq<char>,
    vae: Option<Seq<char>>,
)
    ensures
        ({
            let g = sdxl_graph(ckpt, positive, negative, width, height, steps, cfg_json, seed, sampler, scheduler, vae);
            &&& node_class(g, "4"@) == Some("CheckpointLoaderSimple"@)
            &&& node_input(g, "4"@, "ckpt_name"@) == Some(InputView::Text(ckpt))
            &&& node_class(g, "5"@) == Some("EmptyLatentImage"@)
            &&& node_input(g, "5"@, "width"@) == Some(InputView::Int(width))
            &&& node_input(g, "5"@, "height"@) == Some(InputView::Int(height))
            &&& node_input(g, "5"@, "batch_size"@) == Some(InputView::Int(1))
            &&& node_class(g, "3"@) == Some("KSampler"@)
            &&& node_input(g, "3"@, "model"@) == Some(InputView::Link("4"@, 0))
            &&& node_input(g, "3"@, "latent_image"@) == Some(InputView::Link("5"@, 0))
            &&& node_input(g, "3"@, "seed"@) == Some(InputView::Int(seed))
            &&& node_input(g, "3"@, "steps"@) == Some(InputView::Int(steps))
            &&& node_input(g, "3"@, "cfg"@) == Some(InputView::Number(cfg_json))
            &&& node_input(g, "3"@, "denoise"@) == Some(InputView::Number("1.0"@))
            &&& node_input(g, "3"@, "positive"@) matches Some(InputView::Link(pos_node, pos_out))
            &&& pos_out == 0
            &&& node_class(g, pos_node) == Some("CLIPTextEncode"@)
            &&& node_input(g, pos_node, "text"@) == Some(InputView::Text(positive))
            &&& node_input(g, pos_node, "clip"@) == Some(InputView::Link("4"@, 1))
            &&& node_input(g, "3"@, "negative"@) matches Some(InputView::Link(neg_node, neg_out))
            &&& neg_out == 0
            &&& node_class(g, neg_node) == Some("CLIPTextEncode"@)
            &&& node_input(g, neg_node, "text"@) == Some(InputView::Text(negative))
            &&& node_input(g, neg_node, "clip"@) == Some(InputView::Link("4"@, 1))
            &&& node_class(g, "8"@) == Some("VAEDecode"@)
            &&& node_input(g, "8"@, "samples"@) == Some(InputView::Link("3"@, 0))
            &&& node_class(g, "9"@) == Some("SaveImage"@)
            &&& node_input(g, "9"@, "images"@) == Some(InputView::Link("8"@, 0))
            &&& node_input(g, "9"@, "filename_prefix"@) == Some(InputView::Text("facesguru"@))
        }),
{
    reveal_strlit("3");
    reveal_strlit("4");
    reveal_strlit("5");
    reveal_strlit("6");
    reveal_strlit("7");
    reveal_strlit("8");
    reveal_strlit("9");
    reveal_strlit("batch_size");
    reveal_strlit("cfg");
    reveal_strlit("ckpt_name");
    reveal_strlit("clip");
    reveal_strlit("denoise");
    reveal_strlit("filename_prefix");
    reveal_strlit("height");
    reveal_strlit("images");
    reveal_strlit("latent_image");
    reveal_strlit("model");
    reveal_strlit("negative");
    reveal_strlit("positive");
    reveal_strlit("sampler_name");
    reveal_strlit("samples");
    reveal_strlit("scheduler");
    reveal_strlit("seed");
    reveal_strlit("steps");
    reveal_strlit("text");
    reveal_strlit("vae");
    reveal_strlit("width");
    assert("5"@[0] != "4"@[0]);
    assert("6"@[0] != "4"@[0]);
    assert("6"@[0] != "5"@[0]);
    assert("7"@[0] != "4"@[0]);
    assert("7"@[0] != "5"@[0]);
    assert("7"@[0] != "6"@[0]);
    assert("3"@[0] != "4"@[0]);
    assert("3"@[0] != "5"@[0]);
    assert("3"@[0] != "6"@[0]);
    assert("3"@[0] != "7"@[0]);
    assert("8"@[0] != "4"@[0]);
    assert("8"@[0] != "5"@[0]);
    assert("8"@[0] != "6"@[0]);
    assert("8"@[0] != "7"@[0]);
    assert("8"@[0] != "3"@[0]);
    assert("9"@[0] != "4"@[0]);
    assert("9"@[0] != "5"@[0]);
    assert("9"@[0] != "6"@[0]);
    assert("9"@[0] != "7"@[0]);
    assert("9"@[0] != "3"@[0]);
    assert("9"@[0] != "8"@[0]);
    assert("height"@.len() != "width"@.len());
    assert("batch_size"@.len() != "width"@.len());
    assert("batch_size"@.len() != "height"@.len());
    assert("clip"@[0] != "text"@[0]);
    assert("steps"@.len() != "seed"@.len());
    assert("cfg"@.len() != "seed"@.len());
    assert("cfg"@.len() != "steps"@.len());
    assert("sampler_name"@.len() != "seed"@.len());
    assert("sampler_name"@.len() != "steps"@.len());
    assert("sampler_name"@.len() != "cfg"@.len());
    assert("scheduler"@.len() != "seed"@.len());
    assert("scheduler"@.len() != "steps"@.len());
    assert("scheduler"@.len() != "cfg"@.len());
    assert("scheduler"@.len() != "sampler_name"@.len());
    assert("denoise"@.len() != "seed"@.len());
    assert("denoise"@.len() != "steps"@.len());
    assert("denoise"@.len() != "cfg"@.len());
    assert("denoise"@.len() != "sampler_name"@.len());
    assert("denoise"@.len() != "scheduler"@.len());
    assert("model"@.len() != "seed"@.len());
    assert("model"@[0] != "steps"@[0]);
    assert("model"@.len() != "cfg"@.len());
    assert("model"@.len() != "sampler_name"@.len());
    assert("model"@.len() != "scheduler"@.len());
    assert("model"@.len() != "denoise"@.len());
    assert("positive"@.len() != "seed"@.len());
    assert("positive"@.len() != "steps"@.len());
    assert("positive"@.len() != "cfg"@.len());
    assert("positive"@.len() != "sampler_name"@.len());
    assert("positive"@.len() != "scheduler"@.len());
    assert("positive"@.len() != "denoise"@.len());
    assert("positive"@.len() != "model"@.len());
    assert("negative"@.len() != "seed"@.len());
    assert("negative"@.len() != "steps"@.len());
    assert("negative"@.len() != "cfg"@.len());
    assert("negative"@.len() != "sampler_name"@.len());
    assert("negative"@.len() != "scheduler"@.len());
    assert("negative"@.len() != "denoise"@.len());
    assert("negative"@.len() != "model"@.len());
    assert("negative"@[0] != "positive"@[0]);
    assert("latent_image"@.len() != "seed"@.len());
    assert("latent_image"@.len() != "steps"@.len());
    assert("latent_image"@.len() != "cfg"@.len());
    assert("latent_image"@[0] != "sampler_name"@[0]);
    assert("latent_image"@.len() != "scheduler"@.len());
    assert("latent_image"@.len() != "denoise"@.len());
    assert("latent_image"@.len() != "model"@.len());
    assert("latent_image"@.len() != "positive"@.len());
    assert("latent_image"@.len() != "negative"@.len());
    assert("vae"@.len() != "samples"@.len());
    assert("filename_prefix"@.len() != "images"@.len());
    reveal_with_fuel(find_node, 9);
    reveal_with_fuel(find_input, 11);
}

fn text_input(key: &str, value: &str) -> (r: (String, WorkflowInput))
    ensures
        input_pair_view(r) == (key@, InputView::Text(value@)),
{
    (String::from_str(key), WorkflowInput::Text(String::from_str(value)))
}

fn int_input(key: &str, value: i64) -> (r: (String, WorkflowInput))
    ensures
        input_pair_view(r) == (key@, InputView::Int(value as int)),
{
    (String::from_str(key), WorkflowInput::Int(value))
}

fn number_input(key: &str, literal: &str) -> (r: (String, WorkflowInput))
    ensures
        input_pair_view(r) == (key@, InputView::Number(literal@)),
{
    (String::from_str(key), WorkflowInput::Number(String::from_str(literal)))
}

fn link_input(key: &str, node: &str, output: u32) -> (r: (String, WorkflowInput))
    ensures
        input_pair_view(r) == (key@, InputView::Link(node@, output as nat)),
{
    (String::from_str(key), WorkflowInput::Link(String::from_str(node), output))
}

fn make_node(id: &str, class_type: &str, inputs: Vec<(String, WorkflowInput)>) -> (r: WorkflowNode)
    ensures
        r@ == (NodeView {
            id: id@,
            class_type: class_type@,
            inputs: inputs@.map_values(|p: (String, WorkflowInput)| input_pair_view(p)),
        }),
{
    WorkflowNode { id: String::from_str(id), class_type: String::from_str(class_type), inputs }
}

/// Builds the SDXL text-to-image graph. `cfg_json` is the CFG scale written as a JSON
/// number; the optional `vae` names a VAE file that replaces the checkpoint's own.
pub fn build_sdxl_workflow(
    ckpt: &str,
    positive: &str,
    negative: &str,
    width: u32,
    height: u32,
    steps: u32,
    cfg_json: &str,
    seed: i64,
    sampler: &str,
    scheduler: &str,
    vae: Option<&str>,
) -> (g: Workflow)
    ensures
        g@ == sdxl_graph(
            ckpt@,
            positive@,
            negative@,
            width as int,
            height as int,
            steps as int,
            cfg_json@,
            seed as int,
            sampler@,
            scheduler@,
            match vae {
                Some(v) => Some(v@),
                None => None,
            },
        ),
{
    let ghost f = |p: (String, WorkflowInput)| input_pair_view(p);

    let mut i4: Vec<(String, WorkflowInput)> = Vec::new();
    i4.push(text_input("ckpt_name", ckpt));
    assert(i4@.map_values(f) =~= seq![("ckpt_name"@, InputView::Text(ckpt@))]);
    let n4 = make_node("4", "CheckpointLoaderSimple", i4);

    let mut i5: Vec<(String, WorkflowInput)> = Vec::new();
    i5.push(int_input("width", width as i64));
    i5.push(int_input("height", height as i64));
    i5.push(int_input("batch_size", 1));
    assert(i5@.map_values(f) =~= seq![
        ("width"@, InputView::Int(width as int)),
        ("height"@, InputView::Int(height as int)),
        ("batch_size"@, InputView::Int(1)),
    ]);
    let n5 = make_node("5", "EmptyLatentImage", i5);

    let mut i6: Vec<(String, WorkflowInput)> = Vec::new();
    i6.push(text_input("text", positive));
    i6.push(link_input("clip", "4", 1));
    assert(i6@.map_values(f) =~= seq![
        ("text"@, InputView::Text(positive@)),
        ("clip"@, InputView::Link("4"@, 1)),
    ]);
    let n6 = make_node("6", "CLIPTextEncode", i6);

    let mut i7: Vec<(String, WorkflowInput)> = Vec::new();
    i7.push(text_input("text", negative));
    i7.push(link_input("clip", "4", 1));
    assert(i7@.map_values(f) =~= seq![
        ("text"@, InputView::Text(negative@)),
        ("clip"@, InputView::Link("4"@, 1)),
    ]);
    let n7 = make_node("7", "CLIPTextEncode", i7);

    let mut i3: Vec<(String, WorkflowInput)> = Vec::new();
    i3.push(int_input("seed", seed));
    i3.push(int_input("steps", steps as i64));
    i3.push(number_input("cfg", cfg_json));
    i3.push(text_input("sampler_name", sampler));
    i3.push(text_input("scheduler", scheduler));
    i3.push(number_input("denoise", "1.0"));
    i3.push(link_input("model", "4", 0));
    i3.push(link_input("positive", "6", 0));
    i3.push(link_input("negative", "7", 0));
    i3.push(link_input("latent_image", "5", 0));
    assert(i3@.map_values(f) =~= seq![
        ("seed"@, InputView::Int(seed as int)),
        ("steps"@, InputView::Int(steps as int)),
        ("cfg"@, InputView::Number(cfg_json@)),
        ("sampler_name"@, InputView::Text(sampler@)),
        ("scheduler"@, InputView::Text(scheduler@)),
        ("denoise"@, InputView::Number("1.0"@)),
        ("model"@, InputView::Link("4"@, 0)),
        ("positive"@, InputView::Link("6"@, 0)),
        ("negative"@, InputView::Link("7"@, 0)),
        ("latent_image"@, InputView::Link("5"@, 0)),
    ]);
    let n3 = make_node("3", "KSampler", i3);

    let mut i8: Vec<(String, WorkflowInput)> = Vec::new();
    i8.push(link_input("samples", "3", 0));
    if vae.is_some() {
        i8.push(link_input("vae", "10", 0));
    } else {
        i8.push(link_input("vae", "4", 2));
    }
    let ghost vae_ref = if vae is Some {
        InputView::Link("10"@, 0)
    } else {
        InputView::Link("4"@, 2)
    };
    assert(i8@.map_values(f) =~= seq![("samples"@, InputView::Link("3"@, 0)), ("vae"@, vae_ref)]);
    let n8 = make_node("8", "VAEDecode", i8);

    let mut i9: Vec<(String, WorkflowInput)> = Vec::new();
    i9.push(link_input("images", "8", 0));
    i9.push(text_input("filename_prefix", "facesguru"));
    assert(i9@.map_values(f) =~= seq![
        ("images"@, InputView::Link("8"@, 0)),
        ("filename_prefix"@, InputView::Text("facesguru"@)),
    ]);
    let n9 = make_node("9", "SaveImage", i9);

    let mut nodes: Vec<WorkflowNode> = Vec::new();
    nodes.push(n4);
    nodes.push(n5);
    nodes.push(n6);
    nodes.push(n7);
    nodes.push(n3);
    nodes.push(n8);
    nodes.push(n9);
    let ghost base = seq![n4@, n5@, n6@, n7@, n3@, n8@, n9@];
    assert(nodes@.map_values(|n: WorkflowNode| n@) =~= base);
    match vae {
        Some(name) => {
            let mut i10: Vec<(String, WorkflowInput)> = Vec::new();
            i10.push(text_input("vae_name", name));
            assert(i10@.map_values(f) =~= seq![("vae_name"@, InputView::Text(name@))]);
            let n10 = make_node("10", "VAELoader", i10);
            nodes.push(n10);
            assert(nodes@.map_values(|n: WorkflowNode| n@) =~= base.push(n10@));
        },
        None => {},
    }
    Workflow { nodes }
}

proof fn lemma_find_node_skip(g: Seq<NodeView>, id: Seq<char>, i: int)
    requires
        0 <= i <= g.len(),
        forall|j: int| 0 <= j < i ==> (#[trigger] g[j]).id != id,
    ensures
        find_node(g, id) == find_node(g.skip(i), id),
    decreases i,
{
    if i > 0 {
        let t = g.drop_first();
        assert forall|j: int| 0 <= j < i - 1 implies (#[trigger] t[j]).id != id by {
            assert(t[j] == g[j + 1]);
        }
        lemma_find_node_skip(t, id, i - 1);
        assert(t.skip(i - 1) =~= g.skip(i));
    } else {
        assert(g.skip(0) =~= g);
    }
}

proof fn lemma_find_input_skip(s: Seq<(Seq<char>, InputView)>, key: Seq<char>, i: int)
    requires
        0 <= i <= s.len(),
        forall|j: int| 0 <= j < i ==> (#[trigger] s[j]).0 != key,
    ensures
        find_input(s, key) == find_input(s.skip(i), key),
    decreases i,
{
    if i > 0 {
        let t = s.drop_first();
        assert forall|j: int| 0 <= j < i - 1 implies (#[trigger] t[j]).0 != key by {
            assert(t[j] == s[j + 1]);
        }
        lemma_find_input_skip(t, key, i - 1);
        assert(t.skip(i - 1) =~= s.skip(i));
    } else {
        assert(s.skip(0) =~= s);
    }
}

impl Workflow {
    /// The node with the given id.
    pub fn node(&self, id: &str) -> (r: Option<&WorkflowNode>)
        ensures
            match r {
                Some(n) => find_node(self@, id@) == Some(n@),
                None => find_node(self@, id@) is None,
            },
    {
        let n = self.nodes.len();
        let mut i: usize = 0;
        while i < n
            invariant
                n == self.nodes@.len(),
                i <= n,
                forall|j: int| 0 <= j < i ==> (#[trigger] self@[j]).id != id@,
            decreases n - i,
        {
            if str_eq(self.nodes[i].id.as_str(), id) {
                proof {
                    lemma_find_node_skip(self@, id@, i as int);
                    assert(self@.skip(i as int)[0] == self.nodes@[i as int]@);
                }
                return Some(&self.nodes[i]);
            }
            assert(self@[i as int] == self.nodes@[i as int]@);
            i = i + 1;
        }
        proof {
            lemma_find_node_skip(self@, id@, n as int);
        }
        None
    }
}

impl WorkflowNode {
    /// The input with the given name.
    pub fn input(&self, key: &str) -> (r: Option<&WorkflowInput>)
        ensures
            match r {
                Some(v) => find_input(self@.inputs, key@) == Some(v@),
                None => find_input(self@.inputs, key@) is None,
            },
    {
        let ghost ins = self@.inputs;
        let n = self.inputs.len();
        let mut i: usize = 0;
        while i < n
            invariant
                n == self.inputs@.len(),
                ins == self@.inputs,
                ins.len() == n,
                i <= n,
                forall|j: int| 0 <= j < i ==> (#[trigger] ins[j]).0 != key@,
            decreases n - i,
        {
            assert(ins[i as int] == input_pair_view(self.inputs@[i as int]));
            if str_eq(self.inputs[i].0.as_str(), key) {
                proof {
                    lemma_find_input_skip(ins, key@, i as int);
                    assert(ins.skip(i as int)[0] == ins[i as int]);
                }
                return Some(&self.inputs[i].1);
            }
            i = i + 1;
        }
        proof {
            lemma_find_input_skip(ins, key@, n as int);
        }
        None
    }
}

// ---------------------------------------------------------------------------
// Polling ComfyUI's history for the finished image.
// ---------------------------------------------------------------------------

/// The most history requests made for one prompt before giving up (about ten minutes
/// at one request a second).
pub const COMFY_POLL_LIMIT: u32 = 600;

/// The first image a node of the history reported, with the fields that were strings.
#[derive(Debug)]
pub struct ImageRef {
    pub filename: Option<String>,
    pub subfolder: Option<String>,
    pub kind: Option<String>,
}

/// The query of the `GET /view` request that downloads an image.
#[derive(Debug)]
pub struct ViewQuery {
    pub filename: String,
    pub subfolder: String,
    pub kind: String,
}

/// What one history reply showed: no finished entry yet (no entry for the prompt, or no
/// `outputs` object in it), or the entry's output nodes, each with its first image if
/// its `images` array has one.
#[derive(Debug)]
pub enum PollObservation {
    Pending,
    Outputs(Vec<Option<ImageRef>>),
}

/// What to do after a history reply.
#[derive(Debug)]
pub enum PollAction {
    /// Sleep and ask again.
    Wait,
    /// Download this image; it is the result.
    Download(ViewQuery),
    /// The polling budget is spent: the job timed out.
    GiveUp,
}

/// The polling of one submitted prompt.
#[derive(Debug)]
pub struct ComfyPoll {
    prompt_id: String,
    attempts: u32,
}

/// The value of an image reference: its filename, subfolder and type strings.
pub open spec fn image_ref_view(r: ImageRef) -> (Option<Seq<char>>, Option<Seq<char>>, Option<Seq<char>>) {
    (r.filename.deep_view(), r.subfolder.deep_view(), r.kind.deep_view())
}

/// An optional string, or a default when absent.
pub open spec fn or_default(o: Option<Seq<char>>, d: Seq<char>) -> Seq<char> {
    match o {
        Some(s) => s,
        None => d,
    }
}

/// The download query for an image reference: missing filename and subfolder become
/// empty, a missing type becomes `output`.
pub open spec fn view_query_for(r: (Option<Seq<char>>, Option<Seq<char>>, Option<Seq<char>>)) -> (Seq<char>, Seq<char>, Seq<char>) {
    (or_default(r.0, Seq::empty()), or_default(r.1, Seq::empty()), or_default(r.2, "output"@))
}

/// The first output node that reported an image.
pub open spec fn first_image(outs: Seq<Option<(Option<Seq<char>>, Option<Seq<char>>, Option<Seq<char>>)>>) -> Option<(Option<Seq<char>>, Option<Seq<char>>, Option<Seq<char>>)>
    decreases outs.len(),
{
    if outs.len() == 0 {
        None
    } else if outs[0] is Some {
        outs[0]
    } else {
        first_image(outs.drop_first())
    }
}

/// The values of the output nodes of a history reply.
pub open spec fn outputs_view(outs: Seq<Option<ImageRef>>) -> Seq<Option<(Option<Seq<char>>, Option<Seq<char>>, Option<Seq<char>>)>> {
    outs.map_values(|o: Option<ImageRef>| match o {
        Some(r) => Some(image_ref_view(r)),
        None => None,
    })
}

/// The download a history observation leads to, if any.
pub open spec fn download_for(obs: PollObservation) -> Option<(Seq<char>, Seq<char>, Seq<char>)> {
    match obs {
        PollObservation::Pending => None,
        PollObservation::Outputs(outs) => match first_image(outputs_view(outs@)) {
            Some(r) => Some(view_query_for(r)),
            None => None,
        },
    }
}

/// The value of a download query.
pub open spec fn view_query_view(q: ViewQuery) -> (Seq<char>, Seq<char>, Seq<char>) {
    (q.filename@, q.subfolder@, q.kind@)
}

fn string_or(o: &Option<String>, d: &str) -> (r: String)
    ensures
        r@ == or_default(o.deep_view(), d@),
{
    match o {
        Some(s) => s.clone(),
        None => String::from_str(d),
    }
}

proof fn lemma_first_image_skip(outs: Seq<Option<(Option<Seq<char>>, Option<Seq<char>>, Option<Seq<char>>)>>, i: int)
    requires
        0 <= i <= outs.len(),
        forall|j: int| 0 <= j < i ==> (#[trigger] outs[j]) is None,
    ensures
        first_image(outs) == first_image(outs.skip(i)),
    decreases i,
{
    if i > 0 {
        let t = outs.drop_first();
        assert forall|j: int| 0 <= j < i - 1 implies (#[trigger] t[j]) is None by {
            assert(t[j] == outs[j + 1]);
        }
        lemma_first_image_skip(t, i - 1);
        assert(t.skip(i - 1) =~= outs.skip(i));
    } else {
        assert(outs.skip(0) =~= outs);
    }
}

/// The image downloaded is the one of the first output node that reported an image, and
/// none is downloaded while no node reported one; the query keeps the image's filename,
/// subfolder and type, leaving a missing filename or subfolder empty and reading a
/// missing type as `output`.
pub proof fn lemma_download_is_first_reported_image(
    outs: Seq<Option<(Option<Seq<char>>, Option<Seq<char>>, Option<Seq<char>>)>>,
)
    ensures
        forall|k: int|
            0 <= k < outs.len() && (#[trigger] outs[k]) is Some && (forall|j: int| 0 <= j < k ==> outs[j] is None)
                ==> first_image(outs) == outs[k],
        (forall|j: int| 0 <= j < outs.len() ==> (#[trigger] outs[j]) is None) ==> first_image(outs) is None,
        forall|r: (Option<Seq<char>>, Option<Seq<char>>, Option<Seq<char>>)| {
            let q = #[trigger] view_query_for(r);
            &&& (r.0 matches Some(f) ==> q.0 == f) &&& (r.0 is None ==> q.0 == Seq::<char>::empty())
            &&& (r.1 matches Some(f) ==> q.1 == f) &&& (r.1 is None ==> q.1 == Seq::<char>::empty())
            &&& (r.2 matches Some(f) ==> q.2 == f) &&& (r.2 is None ==> q.2 == "output"@)
        },
{
    assert forall|k: int|
        0 <= k < outs.len() && (#[trigger] outs[k]) is Some && (forall|j: int| 0 <= j < k ==> outs[j] is None)
        implies first_image(outs) == outs[k] by {
        lemma_first_image_skip(outs, k);
        assert(outs.skip(k)[0] == outs[k]);
    }
    if forall|j: int| 0 <= j < outs.len() ==> (#[trigger] outs[j]) is None {
        lemma_first_image_skip(outs, outs.len() as int);
    }
}

/// The download query of the first output node that reported an image.
pub fn first_view_query(outs: &Vec<Option<ImageRef>>) -> (r: Option<ViewQuery>)
    ensures
        match r {
            Some(q) => download_for(PollObservation::Outputs(*outs)) == Some(view_query_view(q)),
            None => download_for(PollObservation::Outputs(*outs)) is None,
        },
{
    let ghost v = outputs_view(outs@);
    let n = outs.len();
    let mut i: usize = 0;
    while i < n
        invariant
            n == outs@.len(),
            v == outputs_view(outs@),
            v.len() == n,
            i <= n,
            forall|j: int| 0 <= j < i ==> (#[trigger] v[j]) is None,
        decreases n - i,
    {
        match &outs[i] {
            Some(img) => {
                proof {
                    lemma_first_image_skip(v, i as int);
                    assert(v.skip(i as int)[0] == v[i as int]);
                }
                let q = ViewQuery {
                    filename: string_or(&img.filename, ""),
                    subfolder: string_or(&img.subfolder, ""),
                    kind: string_or(&img.kind, "output"),
                };
                proof {
                    reveal_strlit("");
                    assert(""@ =~= Seq::<char>::empty());
                }
                return Some(q);
            },
            None => {},
        }
        i = i + 1;
    }
    proof {
        lemma_first_image_skip(v, n as int);
    }
    None
}

impl ComfyPoll {
    /// The prompt id being polled for.
    pub closed spec fn spec_prompt_id(&self) -> Seq<char> {
        self.prompt_id@
    }

    /// The prompt id that ComfyUI returned.
    pub fn prompt_id(&self) -> (r: &str)
        ensures
            r@ == self.spec_prompt_id(),
    {
        self.prompt_id.as_str()
    }

    /// How many history replies have been seen.
    pub closed spec fn spec_attempts(&self) -> nat {
        self.attempts as nat
    }

    /// The budget of history requests is spent.
    pub open spec fn spec_exhausted(&self) -> bool {
        self.spec_attempts() >= COMFY_POLL_LIMIT
    }

    /// Starts polling for the prompt id that the submission returned; a submission
    /// without one is an error.
    pub fn start(prompt_id: Option<String>) -> (r: Result<ComfyPoll, ServiceError>)
        ensures
            match prompt_id {
                Some(id) => r matches Ok(p) && p.spec_prompt_id() == id@ && p.spec_attempts() == 0,
                None => r matches Err(ServiceError::MissingPromptId),
            },
    {
        match prompt_id {
            Some(id) => Ok(ComfyPoll { prompt_id: id, attempts: 0 }),
            None => Err(ServiceError::MissingPromptId),
        }
    }

    /// How many history replies have been seen.
    pub fn attempts(&self) -> (r: u32)
        ensures
            r == self.spec_attempts(),
    {
        self.attempts
    }

    /// Whether the budget of history requests is spent.
    pub fn is_exhausted(&self) -> (r: bool)
        ensures
            r == self.spec_exhausted(),
    {
        self.attempts >= COMFY_POLL_LIMIT
    }

    /// The path of the history request for this prompt: `/history/{prompt_id}`.
    pub fn history_path(&self) -> (r: String)
        ensures
            r@ == "/history/"@ + self.spec_prompt_id(),
    {
        String::from_str("/history/").concat(self.prompt_id.as_str())
    }

    /// Takes in one history reply: download the first reported image if there is one;
    /// otherwise wait for the next reply, or give up once the budget is spent.
    pub fn step(&mut self, obs: &PollObservation) -> (r: PollAction)
        requires
            !old(self).spec_exhausted(),
        ensures
            final(self).spec_prompt_id() == old(self).spec_prompt_id(),
            final(self).spec_attempts() == old(self).spec_attempts() + 1,
            match download_for(*obs) {
                Some(q) => r matches PollAction::Download(d) && view_query_view(d) == q,
                None => if final(self).spec_exhausted() {
                    r matches PollAction::GiveUp
                } else {
                    r matches PollAction::Wait
                },
            },
    {
        self.attempts = self.attempts + 1;
        match obs {
            PollObservation::Outputs(outs) => {
                match first_view_query(outs) {
                    Some(q) => {
                        return PollAction::Download(q);
                    },
                    None => {},
                }
            },
            PollObservation::Pending => {},
        }
        if self.attempts >= COMFY_POLL_LIMIT {
            PollAction::GiveUp
        } else {
            PollAction::Wait
        }
    }
}

/// A poll that has seen `k` replies without an image has made exactly `k` requests, and
/// gives up exactly at the budget: a fresh poll fed only image-less replies waits on
/// the first 599 and gives up on the 600th.
pub proof fn lemma_poll_gives_up_at_budget(before: ComfyPoll, after: ComfyPoll, obs: PollObservation, r: PollAction)
    requires
        !before.spec_exhausted(),
        download_for(obs) is None,
        after.spec_attempts() == before.spec_attempts() + 1,
        after.spec_exhausted() ==> r matches PollAction::GiveUp,
        !after.spec_exhausted() ==> r matches PollAction::Wait,
    ensures
        (r matches PollAction::GiveUp) <==> before.spec_attempts() == COMFY_POLL_LIMIT - 1,
        after.spec_attempts() <= COMFY_POLL_LIMIT,
{
}

/// One entry of ComfyUI's history reply: the prompt id it is filed under, and, when its
/// `outputs` member is an object, each output node's `images` list (empty where the node
/// has none).
#[derive(Debug)]
pub struct HistoryEntry {
    pub prompt_id: String,
    pub outputs: Option<Vec<Vec<ImageRef>>>,
}

/// The value of an output node's image list.
pub open spec fn node_images_view(n: Vec<ImageRef>) -> Seq<(Option<Seq<char>>, Option<Seq<char>>, Option<Seq<char>>)> {
    n@.map_values(|r: ImageRef| image_ref_view(r))
}

/// The value of a history entry: its prompt id and its output nodes' image lists.
pub open spec fn history_entry_view(e: HistoryEntry) -> (Seq<char>, Option<Seq<Seq<(Option<Seq<char>>, Option<Seq<char>>, Option<Seq<char>>)>>>) {
    (
        e.prompt_id@,
        match e.outputs {
            Some(nodes) => Some(nodes@.map_values(|n: Vec<ImageRef>| node_images_view(n))),
            None => None,
        },
    )
}

/// The output nodes of the history entry filed under `id` (the first such entry), if any.
pub open spec fn entry_outputs(
    h: Seq<(Seq<char>, Option<Seq<Seq<(Option<Seq<char>>, Option<Seq<char>>, Option<Seq<char>>)>>>)>,
    id: Seq<char>,
) -> Option<Option<Seq<Seq<(Option<Seq<char>>, Option<Seq<char>>, Option<Seq<char>>)>>>>
    decreases h.len(),
{
    if h.len() == 0 {
        None
    } else if h[0].0 == id {
        Some(h[0].1)
    } else {
        entry_outputs(h.drop_first(), id)
    }
}

/// Each output node's first image, where it has one.
pub open spec fn first_images(nodes: Seq<Seq<(Option<Seq<char>>, Option<Seq<char>>, Option<Seq<char>>)>>) -> Seq<Option<(Option<Seq<char>>, Option<Seq<char>>, Option<Seq<char>>)>> {
    nodes.map_values(|n: Seq<(Option<Seq<char>>, Option<Seq<char>>, Option<Seq<char>>)>| if n.len() > 0 {
        Some(n[0])
    } else {
        None
    })
}

/// The download a history reply leads to for a prompt: none until the reply files an
/// entry under the prompt id with an `outputs` object; then the first output node's
/// first image.
pub open spec fn history_download(
    h: Seq<(Seq<char>, Option<Seq<Seq<(Option<Seq<char>>, Option<Seq<char>>, Option<Seq<char>>)>>>)>,
    id: Seq<char>,
) -> Option<(Seq<char>, Seq<char>, Seq<char>)> {
    match entry_outputs(h, id) {
        Some(Some(nodes)) => match first_image(first_images(nodes)) {
            Some(r) => Some(view_query_for(r)),
            None => None,
        },
        _ => None,
    }
}

proof fn lemma_entry_outputs_skip(
    h: Seq<(Seq<char>, Option<Seq<Seq<(Option<Seq<char>>, Option<Seq<char>>, Option<Seq<char>>)>>>)>,
    id: Seq<char>,
    i: int,
)
    requires
        0 <= i <= h.len(),
        forall|j: int| 0 <= j < i ==> (#[trigger] h[j]).0 != id,
    ensures
        entry_outputs(h, id) == entry_outputs(h.skip(i), id),
    decreases i,
{
    if i > 0 {
        let t = h.drop_first();
        assert forall|j: int| 0 <= j < i - 1 implies (#[trigger] t[j]).0 != id by {
            assert(t[j] == h[j + 1]);
        }
        lemma_entry_outputs_skip(t, id, i - 1);
        assert(t.skip(i - 1) =~= h.skip(i));
    } else {
        assert(h.skip(0) =~= h);
    }
}

fn copy_image_ref(r: &ImageRef) -> (c: ImageRef)
    ensures
        image_ref_view(c) == image_ref_view(*r),
{
    ImageRef {
        filename: match &r.filename {
            Some(s) => Some(s.clone()),
            None => None,
        },
        subfolder: match &r.subfolder {
            Some(s) => Some(s.clone()),
            None => None,
        },
        kind: match &r.kind {
            Some(s) => Some(s.clone()),
            None => None,
        },
    }
}

fn first_of_each(nodes: &Vec<Vec<ImageRef>>) -> (r: Vec<Option<ImageRef>>)
    ensures
        outputs_view(r@) == first_images(nodes@.map_values(|n: Vec<ImageRef>| node_images_view(n))),
{
    let ghost nv = nodes@.map_values(|n: Vec<ImageRef>| node_images_view(n));
    let ghost want = first_images(nv);
    let mut out: Vec<Option<ImageRef>> = Vec::new();
    let n = nodes.len();
    let mut i: usize = 0;
    while i < n
        invariant
            n == nodes@.len(),
            nv == nodes@.map_values(|n: Vec<ImageRef>| node_images_view(n)),
            want == first_images(nv),
            i <= n,
            out@.len() == i,
            forall|k: int| 0 <= k < i ==> (#[trigger] outputs_view(out@)[k]) == want[k],
        decreases n - i,
    {
        let node = &nodes[i];
        assert(nv[i as int] == node_images_view(*node));
        let item = if node.len() > 0 {
            let c = copy_image_ref(&node[0]);
            assert(node_images_view(*node)[0] == image_ref_view(node@[0]));
            Some(c)
        } else {
            None
        };
        let ghost before = out@;
        out.push(item);
        proof {
            assert forall|k: int| 0 <= k < i + 1 implies (#[trigger] outputs_view(out@)[k]) == want[k] by {
                if k < i {
                    assert(out@[k] == before[k]);
                    assert(outputs_view(before)[k] == want[k]);
                } else {
                    assert(out@[k] == item);
                }
            }
        }
        i = i + 1;
    }
    assert(outputs_view(out@) =~= want);
    out
}

/// What a history reply shows about a prompt: its output nodes' first images once an
/// entry with an `outputs` object is filed under the prompt id; pending before that.
pub fn observation_for(history: &Vec<HistoryEntry>, prompt_id: &str) -> (r: PollObservation)
    ensures
        download_for(r) == history_download(
            history@.map_values(|e: HistoryEntry| history_entry_view(e)),
            prompt_id@,
        ),
{
    let ghost hv = history@.map_values(|e: HistoryEntry| history_entry_view(e));
    let n = history.len();
    let mut i: usize = 0;
    while i < n
        invariant
            n == history@.len(),
            hv == history@.map_values(|e: HistoryEntry| history_entry_view(e)),
            i <= n,
            forall|j: int| 0 <= j < i ==> (#[trigger] hv[j]).0 != prompt_id@,
        decreases n - i,
    {
        assert(hv[i as int] == history_entry_view(history@[i as int]));
        if str_eq(history[i].prompt_id.as_str(), prompt_id) {
            proof {
                lemma_entry_outputs_skip(hv, prompt_id@, i as int);
                assert(hv.skip(i as int)[0] == hv[i as int]);
            }
            return match &history[i].outputs {
                Some(nodes) => PollObservation::Outputs(first_of_each(nodes)),
                None => PollObservation::Pending,
            };
        }
        i = i + 1;
    }
    proof {
        lemma_entry_outputs_skip(hv, prompt_id@, n as int);
    }
    PollObservation::Pending
}

} // verus!
