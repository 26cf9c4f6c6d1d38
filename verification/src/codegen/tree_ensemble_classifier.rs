//! Code generation for TreeEnsembleClassifier.
//!
//! The forward step holds the trees, the leaf weights and the base values as
//! inline arrays. For every sample it starts each class score at its base
//! value, walks every tree from its root (the node that no branch of the tree
//! points to) to a leaf, sending a missing (NaN) feature to the true child where
//! the node tracks missing values as true, and adds the leaf weights to the
//! class scores; it then applies the post transform and returns, with the
//! scores, the label of the first best-scoring class. When the configuration
//! lacks the nodes, their modes or the leaf weights it returns zero tensors.
use vstd::prelude::*;
use vstd::string::StringExecFns;
use crate::codegen::{all_finite, f32_literals, push_f32_literal_list};
use crate::ir::Argument;
use crate::node::tree_ensemble_classifier::{TreeEnsembleClassifierConfig, TreeEnsembleClassifierConfigView, TreeEnsembleClassifierNode};
use crate::text::{comma_list, contains, i64_literals, lemma_contains_around, lemma_contains_left, lemma_contains_right, lemma_contains_within, plain_text, push_i64_literal_list, push_usize_literal, quoted, quoted_all, string_literal, usize_literal};

verus! {

/// Whether the configuration holds the nodes, their modes and the leaf
/// weights; the branch attributes (features, thresholds, children, missing
/// value tracking) and the base values may be absent, and then stand for none.
pub open spec fn tree_ready(c: TreeEnsembleClassifierConfigView) -> bool {
    &&& c.nodes_treeids is Some
    &&& c.nodes_nodeids is Some
    &&& c.nodes_modes is Some
    &&& c.class_treeids is Some
    &&& c.class_nodeids is Some
    &&& c.class_ids is Some
    &&& c.class_weights is Some
}

/// The number of classes: the number of integer labels, or 2 without them.
pub open spec fn class_count(c: TreeEnsembleClassifierConfigView) -> nat {
    match c.classlabels_int64s {
        Some(l) => l.len(),
        None => 2,
    }
}

/// The class labels: the integer labels, or 0 and 1 without them.
pub open spec fn class_label_values(c: TreeEnsembleClassifierConfigView) -> Seq<i64> {
    match c.classlabels_int64s {
        Some(l) => l,
        None => seq![0i64, 1i64],
    }
}

/// The post transform, NONE when absent.
pub open spec fn tree_transform_of(c: TreeEnsembleClassifierConfigView) -> Seq<char> {
    match c.post_transform {
        Some(p) => p,
        None => "NONE"@,
    }
}

/// Whether `lit` can be the string literal of `s`: it starts and ends with a
/// double quote, and it is `s` between double quotes when `s` holds only
/// printable ASCII other than `"` and `\`.
pub open spec fn literal_of(s: Seq<char>, lit: Seq<char>) -> bool {
    &&& lit.len() >= 2
    &&& lit[0] == '"'
    &&& lit.last() == '"'
    &&& plain_text(s) ==> lit == quoted(s)
}

/// Whether `lits` can be the string literals of `v`, one for each string.
pub open spec fn literals_of_all(v: Seq<Seq<char>>, lits: Seq<Seq<char>>) -> bool {
    &&& lits.len() == v.len()
    &&& forall|i: int| 0 <= i < v.len() ==> #[trigger] literal_of(v[i], lits[i])
}

/// Whether every string of a list is plain text.
pub open spec fn all_plain(v: Seq<Seq<char>>) -> bool {
    forall|i: int| 0 <= i < v.len() ==> #[trigger] plain_text(v[i])
}

/// The node modes, none when the attribute is absent.
pub open spec fn modes_of(c: TreeEnsembleClassifierConfigView) -> Seq<Seq<char>> {
    match c.nodes_modes {
        Some(m) => m,
        None => Seq::empty(),
    }
}

/// An optional list of integers, with absence standing for none.
pub open spec fn ints_or_empty(v: Option<Seq<i64>>) -> Seq<i64> {
    match v {
        Some(s) => s,
        None => Seq::empty(),
    }
}

/// An optional list of floats, with absence standing for none.
pub open spec fn floats_or_empty(v: Option<Seq<crate::ir::F32ValueView>>) -> Seq<crate::ir::F32ValueView> {
    match v {
        Some(s) => s,
        None => Seq::empty(),
    }
}

/// The statement binding an inline array of integer literals, after `prefix`.
pub open spec fn int_array_text(sep: Seq<char>, decl: Seq<char>, v: Option<Seq<i64>>) -> Seq<char> {
    sep + decl + comma_list(i64_literals(ints_or_empty(v)))
}

/// The statement binding an inline array of the given string literals, after `prefix`.
pub open spec fn lit_array_text(sep: Seq<char>, decl: Seq<char>, lits: Seq<Seq<char>>) -> Seq<char> {
    sep + decl + comma_list(lits)
}

/// The statement binding an inline array of float literals, after `prefix`.
pub open spec fn float_array_text(sep: Seq<char>, decl: Seq<char>, v: Option<Seq<crate::ir::F32ValueView>>) -> Seq<char> {
    sep + decl + comma_list(f32_literals(floats_or_empty(v)))
}

/// The arrays of the tree structure; `lits` are the literals of the node modes.
pub open spec fn tree_nodes_text(c: TreeEnsembleClassifierConfigView, lits: Seq<Seq<char>>) -> Seq<char> {
    int_array_text("{\n    "@, "let tree_ids: Vec<i64> = vec!["@, c.nodes_treeids)
        + int_array_text("];\n    "@, "let node_ids: Vec<i64> = vec!["@, c.nodes_nodeids)
        + int_array_text("];\n    "@, "let feature_ids: Vec<i64> = vec!["@, c.nodes_featureids)
        + lit_array_text("];\n    "@, "let modes: Vec<&str> = vec!["@, lits)
        + float_array_text("];\n    "@, "let split_values: Vec<f32> = vec!["@, c.nodes_values)
        + int_array_text("];\n    "@, "let true_node_ids: Vec<i64> = vec!["@, c.nodes_truenodeids)
        + int_array_text("];\n    "@, "let false_node_ids: Vec<i64> = vec!["@, c.nodes_falsenodeids)
        + int_array_text("];\n    "@, "let missing_tracks_true: Vec<i64> = vec!["@, c.nodes_missing_value_tracks_true)
}

/// The arrays of the leaf weights.
pub open spec fn tree_classes_text(c: TreeEnsembleClassifierConfigView) -> Seq<char> {
    int_array_text("];\n    "@, "let class_tree_ids: Vec<i64> = vec!["@, c.class_treeids)
        + int_array_text("];\n    "@, "let class_node_ids: Vec<i64> = vec!["@, c.class_nodeids)
        + int_array_text("];\n    "@, "let class_ids: Vec<i64> = vec!["@, c.class_ids)
        + float_array_text("];\n    "@, "let class_weights: Vec<f32> = vec!["@, c.class_weights)
        + float_array_text("];\n    "@, "let base_values: Vec<f32> = vec!["@, c.base_values)
}

/// The class labels and their number.
pub open spec fn tree_labels_text(c: TreeEnsembleClassifierConfigView) -> Seq<char> {
    "];\n    "@ + "let class_labels: Vec<i64> = vec!["@ + comma_list(i64_literals(class_label_values(c))) + "];\n    "@ + "let num_classes = "@ + usize_literal(class_count(c))
}

/// The opening of the block: the inline arrays, the class labels and their number.
#[verifier::opaque]
pub open spec fn tree_arrays_text(c: TreeEnsembleClassifierConfigView, lits: Seq<Seq<char>>) -> Seq<char> {
    tree_nodes_text(c, lits) + tree_classes_text(c) + tree_labels_text(c)
}

/// Walking the trees for every sample, up to the binding of the post transform.
#[verifier::opaque]
pub open spec fn tree_eval_text(input: Seq<char>) -> Seq<char> {
    ";\n    let input_shape = "@ + input + ".shape();\n    let batch_size = input_shape.dims[0];\n    let n_features = input_shape.dims[input_shape.dims.len() - 1];\n    let mut all_scores = vec![vec![0.0f32; num_classes]; batch_size];"@ + "\n    for scores in all_scores.iter_mut() {\n        for (class_idx, score) in scores.iter_mut().enumerate() {\n            *score = base_values.get(class_idx).copied().unwrap_or(0.0);\n        }\n    }"@ + "\n    let input_vals = "@ + input + ".to_data().to_vec::<f32>().unwrap();\n    let mut unique_trees = tree_ids.clone();\n    unique_trees.sort();\n    unique_trees.dedup();"@ + "\n    let mut roots: Vec<(i64, i64)> = Vec::with_capacity(unique_trees.len());\n    for &tree_id in &unique_trees {\n        let root = tree_ids.iter()\n            .zip(node_ids.iter())\n            .filter(|(&t, _)| t == tree_id)\n            .map(|(_, &n)| n)\n            .find(|&n| !(0..tree_ids.len()).any(|j| {\n                tree_ids[j] == tree_id\n                    && modes.get(j).copied() != Some(\"LEAF\")\n                    && (true_node_ids.get(j) == Some(&n) || false_node_ids.get(j) == Some(&n))\n            }))\n            .unwrap_or(0);\n        roots.push((tree_id, root));\n    }"@ + "\n    for sample_idx in 0..batch_size {\n        let sample_offset = sample_idx * n_features;\n        let sample_features: Vec<f32> = input_vals[sample_offset..sample_offset + n_features].to_vec();\n        for &(tree_id, root) in &roots {\n            let mut current_node_id = root;\n            loop {\n                let node_idx = tree_ids.iter()\n                    .zip(node_ids.iter())\n                    .position(|(&t, &n)| t == tree_id && n == current_node_id);\n                let Some(idx) = node_idx else {\n                    break;\n                };\n                let mode = modes[idx];"@ + "\n                if mode == \"LEAF\" {\n                    for (((&ct, &cn), &cid), &cw) in class_tree_ids.iter()\n                        .zip(class_node_ids.iter())\n                        .zip(class_ids.iter())\n                        .zip(class_weights.iter()) {\n                        if ct == tree_id && cn == current_node_id {\n                            let class_idx = cid as usize;\n                            if class_idx < num_classes {\n                                all_scores[sample_idx][class_idx] += cw;\n                            }\n                        }\n                    }\n                    break;\n                }"@ + "\n                let (Some(&feature_id), Some(&threshold), Some(&true_id), Some(&false_id)) = (\n                    feature_ids.get(idx),\n                    split_values.get(idx),\n                    true_node_ids.get(idx),\n                    false_node_ids.get(idx),\n                ) else {\n                    break;\n                };\n                let feature_id = feature_id as usize;\n                let feature_val = if feature_id < sample_features.len() {\n                    sample_features[feature_id]\n                } else {\n                    0.0\n                };"@ + "\n                let go_true = if feature_val.is_nan() {\n                    missing_tracks_true.get(idx).copied().unwrap_or(0) != 0\n                } else {\n                    match mode {\n                        \"BRANCH_LEQ\" => feature_val <= threshold,\n                        \"BRANCH_LT\" => feature_val < threshold,\n                        \"BRANCH_GTE\" => feature_val >= threshold,\n                        \"BRANCH_GT\" => feature_val > threshold,\n                        \"BRANCH_EQ\" => (feature_val - threshold).abs() < 1e-6,\n                        \"BRANCH_NEQ\" => (feature_val - threshold).abs() >= 1e-6,\n                        _ => feature_val <= threshold,\n                    }\n                };\n                current_node_id = if go_true { true_id } else { false_id };"@ + "\n            }\n        }\n    }\n    let post_transform = "@
}

/// Applying the post transform to the scores.
#[verifier::opaque]
pub open spec fn tree_transform_text() -> Seq<char> {
    ";\n    match post_transform {"@ + "\n        \"SOFTMAX\" => {\n            for scores in &mut all_scores {\n                let max_score = scores.iter().copied().fold(f32::NEG_INFINITY, f32::max);\n                let exp_scores: Vec<f32> = scores.iter().map(|&s| (s - max_score).exp()).collect();\n                let sum: f32 = exp_scores.iter().sum();\n                for (i, &exp_s) in exp_scores.iter().enumerate() {\n                    scores[i] = exp_s / sum;\n                }\n            }\n        }"@ + "\n        \"LOGISTIC\" => {\n            for scores in &mut all_scores {\n                for score in scores.iter_mut() {\n                    *score = 1.0 / (1.0 + (-*score).exp());\n                }\n            }\n        }"@ + "\n        \"SOFTMAX_ZERO\" => {\n            for scores in &mut all_scores {\n                scores.push(0.0);\n                let max_score = scores.iter().copied().fold(f32::NEG_INFINITY, f32::max);\n                let exp_scores: Vec<f32> = scores.iter().map(|&s| (s - max_score).exp()).collect();\n                let sum: f32 = exp_scores.iter().sum();\n                for (i, &exp_s) in exp_scores.iter().enumerate() {\n                    scores[i] = exp_s / sum;\n                }\n                scores.pop();\n            }\n        }"@ + "\n        _ => {}\n    }"@
}

/// Building the two output tensors and closing the block.
#[verifier::opaque]
pub open spec fn tree_outputs_text(labels: Seq<char>, probs: Seq<char>) -> Seq<char> {
    "\n    let "@ + labels + " = Tensor::<B, 1, burn::tensor::Int>::from_data(\n        burn::tensor::TensorData::from(&labels[..]),\n        &*self.device\n    );\n    let probs_flat: Vec<f32> = all_scores.into_iter().flatten().collect();\n    let "@ + probs + " = Tensor::<B, 2>::from_data(\n        burn::tensor::TensorData::new(probs_flat, [batch_size, num_classes]),\n        &*self.device\n    );\n    ("@ + labels + ", "@ + probs + ")\n}"@
}

/// Picking, for each sample, the label of its best-scoring class.
#[verifier::opaque]
pub open spec fn tree_argmax_text() -> Seq<char> {
    "\n    let mut labels = Vec::with_capacity(batch_size);\n    for scores in &all_scores {\n        let mut max_idx = 0usize;\n        for (i, &score) in scores.iter().enumerate() {\n            if score > scores[max_idx] {\n                max_idx = i;\n            }\n        }\n        labels.push(class_labels[max_idx]);\n    }"@
}

/// The code of the forward step when the configuration is complete, with
/// `lits` the literals of the node modes and `transform_lit` that of the post transform.
pub open spec fn tree_full_text(
    input: Seq<char>,
    labels: Seq<char>,
    probs: Seq<char>,
    c: TreeEnsembleClassifierConfigView,
    lits: Seq<Seq<char>>,
    transform_lit: Seq<char>,
) -> Seq<char> {
    tree_arrays_text(c, lits) + tree_eval_text(input) + transform_lit + tree_transform_text() + tree_argmax_text() + tree_outputs_text(labels, probs)
}

/// The code of the forward step when part of the configuration is missing.
pub open spec fn tree_fallback_text(labels: Seq<char>, probs: Seq<char>) -> Seq<char> {
    "{\n    let "@ + labels + " = Tensor::<B, 1, burn::tensor::Int>::zeros([1], &*self.device);\n    let "@ + probs + " = Tensor::<B, 2>::zeros([1, 2], &*self.device);\n    ("@ + labels + ", "@ + probs + ")\n}"@
}

/// The code of the forward step: the labels and the probabilities bound to
/// the names of the two outputs; `lits` are the literals of the node modes and
/// `transform_lit` that of the post transform.
pub open spec fn tree_forward_text(
    input: Seq<char>,
    labels: Seq<char>,
    probs: Seq<char>,
    c: TreeEnsembleClassifierConfigView,
    lits: Seq<Seq<char>>,
    transform_lit: Seq<char>,
) -> Seq<char> {
    "let ("@ + labels + ", "@ + probs + ") = "@ + (if tree_ready(c) {
        tree_full_text(input, labels, probs, c, lits, transform_lit)
    } else {
        tree_fallback_text(labels, probs)
    }) + ";"@
}

/// Whether the thresholds, the leaf weights and the base values are finite,
/// when the code writes them out: each is written as a suffixed float literal,
/// which cannot hold an infinity or a NaN. The base values are written out
/// because every class score starts at its base value.
pub open spec fn tree_literals_finite(c: TreeEnsembleClassifierConfigView) -> bool {
    tree_ready(c) ==> {
        &&& all_finite(floats_or_empty(c.nodes_values))
        &&& all_finite(c.class_weights.unwrap())
        &&& all_finite(floats_or_empty(c.base_values))
    }
}

/// The code declares as many classes as it has labels: the labels' count is
/// the number of classes, 2 when the labels are not given.
pub proof fn lemma_labels_match_class_count(c: TreeEnsembleClassifierConfigView)
    ensures
        class_label_values(c).len() == class_count(c),
        c.classlabels_int64s is None ==> class_label_values(c) == seq![0i64, 1i64],
{
}

fn literals_of(v: &Vec<String>) -> (r: Vec<String>)
    ensures
        literals_of_all(v.deep_view(), r.deep_view()),
{
    let mut out: Vec<String> = Vec::new();
    let mut i: usize = 0;
    while i < v.len()
        invariant
            i <= v.len(),
            out@.len() == i,
            forall|j: int| 0 <= j < i ==> #[trigger] literal_of(v@[j]@, out@[j]@),
        decreases v.len() - i,
    {
        let l = string_literal(v[i].as_str());
        out.push(l);
        i = i + 1;
    }
    assert(literals_of_all(v.deep_view(), out.deep_view()));
    out
}

fn push_lit_list(out: &mut String, v: &Vec<String>)
    ensures
        final(out)@ == old(out)@ + comma_list(v.deep_view()),
{
    let ghost start = out@;
    let ghost items = v.deep_view();
    let mut i: usize = 0;
    while i < v.len()
        invariant
            i <= v.len(),
            items == v.deep_view(),
            out@ == start + comma_list(items.take(i as int)),
        decreases v.len() - i,
    {
        if i > 0 {
            out.append(", ");
            assert(items.take(i + 1).drop_last() =~= items.take(i as int));
        }
        out.append(v[i].as_str());
        i = i + 1;
        assert(out@ =~= start + comma_list(items.take(i as int)));
    }
    assert(items.take(v.len() as int) =~= items);
}

fn push_int_array(out: &mut String, sep: &str, decl: &str, v: &Option<Vec<i64>>)
    ensures
        final(out)@ == old(out)@ + int_array_text(sep@, decl@, crate::ir::ints_view(*v)),
{
    out.append(sep);
    out.append(decl);
    match v {
        Some(v) => push_i64_literal_list(out, v),
        None => {},
    }
    assert(final(out)@ =~= old(out)@ + int_array_text(sep@, decl@, crate::ir::ints_view(*v)));
}

fn push_lit_array(out: &mut String, sep: &str, decl: &str, lits: &Vec<String>)
    ensures
        final(out)@ == old(out)@ + lit_array_text(sep@, decl@, lits.deep_view()),
{
    out.append(sep);
    out.append(decl);
    push_lit_list(out, lits);
    assert(final(out)@ =~= old(out)@ + lit_array_text(sep@, decl@, lits.deep_view()));
}

fn push_float_array(out: &mut String, sep: &str, decl: &str, v: &Option<Vec<crate::ir::F32Value>>)
    ensures
        final(out)@ == old(out)@ + float_array_text(sep@, decl@, crate::ir::floats_view(*v)),
{
    out.append(sep);
    out.append(decl);
    match v {
        Some(v) => push_f32_literal_list(out, v),
        None => {},
    }
    assert(final(out)@ =~= old(out)@ + float_array_text(sep@, decl@, crate::ir::floats_view(*v)));
}

fn push_nodes(out: &mut String, c: &TreeEnsembleClassifierConfig, lits: &Vec<String>)
    requires
        tree_ready(c@),
    ensures
        final(out)@ == old(out)@ + tree_nodes_text(c@, lits.deep_view()),
{
    push_int_array(out, "{\n    ", "let tree_ids: Vec<i64> = vec![", &c.nodes_treeids);
    push_int_array(out, "];\n    ", "let node_ids: Vec<i64> = vec![", &c.nodes_nodeids);
    push_int_array(out, "];\n    ", "let feature_ids: Vec<i64> = vec![", &c.nodes_featureids);
    push_lit_array(out, "];\n    ", "let modes: Vec<&str> = vec![", lits);
    push_float_array(out, "];\n    ", "let split_values: Vec<f32> = vec![", &c.nodes_values);
    push_int_array(out, "];\n    ", "let true_node_ids: Vec<i64> = vec![", &c.nodes_truenodeids);
    push_int_array(out, "];\n    ", "let false_node_ids: Vec<i64> = vec![", &c.nodes_falsenodeids);
    push_int_array(out, "];\n    ", "let missing_tracks_true: Vec<i64> = vec![", &c.nodes_missing_value_tracks_true);
    assert(final(out)@ =~= old(out)@ + tree_nodes_text(c@, lits.deep_view()));
}

fn push_classes(out: &mut String, c: &TreeEnsembleClassifierConfig)
    requires
        tree_ready(c@),
    ensures
        final(out)@ == old(out)@ + tree_classes_text(c@),
{
    push_int_array(out, "];\n    ", "let class_tree_ids: Vec<i64> = vec![", &c.class_treeids);
    push_int_array(out, "];\n    ", "let class_node_ids: Vec<i64> = vec![", &c.class_nodeids);
    push_int_array(out, "];\n    ", "let class_ids: Vec<i64> = vec![", &c.class_ids);
    push_float_array(out, "];\n    ", "let class_weights: Vec<f32> = vec![", &c.class_weights);
    push_float_array(out, "];\n    ", "let base_values: Vec<f32> = vec![", &c.base_values);
    assert(final(out)@ =~= old(out)@ + tree_classes_text(c@));
}

fn push_labels(out: &mut String, c: &TreeEnsembleClassifierConfig)
    ensures
        final(out)@ == old(out)@ + tree_labels_text(c@),
{
    out.append("];\n    ");
    out.append("let class_labels: Vec<i64> = vec![");
    match &c.classlabels_int64s {
        Some(l) => {
            push_i64_literal_list(out, l);
        },
        None => {
            let mut d: Vec<i64> = Vec::new();
            d.push(0);
            d.push(1);
            assert(d@ =~= seq![0i64, 1i64]);
            push_i64_literal_list(out, &d);
        },
    }
    out.append("];\n    ");
    out.append("let num_classes = ");
    let n = match &c.classlabels_int64s {
        Some(l) => l.len(),
        None => 2,
    };
    push_usize_literal(out, n);
    assert(final(out)@ =~= old(out)@ + tree_labels_text(c@));
}

fn push_arrays(out: &mut String, c: &TreeEnsembleClassifierConfig, lits: &Vec<String>)
    requires
        tree_ready(c@),
    ensures
        final(out)@ == old(out)@ + tree_arrays_text(c@, lits.deep_view()),
{
    push_nodes(out, c, lits);
    push_classes(out, c);
    push_labels(out, c);
    proof {
        reveal(tree_arrays_text);
    }
    assert(final(out)@ =~= old(out)@ + tree_arrays_text(c@, lits.deep_view()));
}

fn push_argmax(out: &mut String)
    ensures
        final(out)@ == old(out)@ + tree_argmax_text(),
{
    proof {
        reveal(tree_argmax_text);
    }
    out.append("\n    let mut labels = Vec::with_capacity(batch_size);\n    for scores in &all_scores {\n        let mut max_idx = 0usize;\n        for (i, &score) in scores.iter().enumerate() {\n            if score > scores[max_idx] {\n                max_idx = i;\n            }\n        }\n        labels.push(class_labels[max_idx]);\n    }");
}

fn push_eval(out: &mut String, input: &str)
    ensures
        final(out)@ == old(out)@ + tree_eval_text(input@),
{
    out.append(";\n    let input_shape = ");
    out.append(input);
    out.append(".shape();\n    let batch_size = input_shape.dims[0];\n    let n_features = input_shape.dims[input_shape.dims.len() - 1];\n    let mut all_scores = vec![vec![0.0f32; num_classes]; batch_size];");
    out.append("\n    for scores in all_scores.iter_mut() {\n        for (class_idx, score) in scores.iter_mut().enumerate() {\n            *score = base_values.get(class_idx).copied().unwrap_or(0.0);\n        }\n    }");
    out.append("\n    let input_vals = ");
    out.append(input);
    out.append(".to_data().to_vec::<f32>().unwrap();\n    let mut unique_trees = tree_ids.clone();\n    unique_trees.sort();\n    unique_trees.dedup();");
    out.append("\n    let mut roots: Vec<(i64, i64)> = Vec::with_capacity(unique_trees.len());\n    for &tree_id in &unique_trees {\n        let root = tree_ids.iter()\n            .zip(node_ids.iter())\n            .filter(|(&t, _)| t == tree_id)\n            .map(|(_, &n)| n)\n            .find(|&n| !(0..tree_ids.len()).any(|j| {\n                tree_ids[j] == tree_id\n                    && modes.get(j).copied() != Some(\"LEAF\")\n                    && (true_node_ids.get(j) == Some(&n) || false_node_ids.get(j) == Some(&n))\n            }))\n            .unwrap_or(0);\n        roots.push((tree_id, root));\n    }");
    out.append("\n    for sample_idx in 0..batch_size {\n        let sample_offset = sample_idx * n_features;\n        let sample_features: Vec<f32> = input_vals[sample_offset..sample_offset + n_features].to_vec();\n        for &(tree_id, root) in &roots {\n            let mut current_node_id = root;\n            loop {\n                let node_idx = tree_ids.iter()\n                    .zip(node_ids.iter())\n                    .position(|(&t, &n)| t == tree_id && n == current_node_id);\n                let Some(idx) = node_idx else {\n                    break;\n                };\n                let mode = modes[idx];");
    out.append("\n                if mode == \"LEAF\" {\n                    for (((&ct, &cn), &cid), &cw) in class_tree_ids.iter()\n                        .zip(class_node_ids.iter())\n                        .zip(class_ids.iter())\n                        .zip(class_weights.iter()) {\n                        if ct == tree_id && cn == current_node_id {\n                            let class_idx = cid as usize;\n                            if class_idx < num_classes {\n                                all_scores[sample_idx][class_idx] += cw;\n                            }\n                        }\n                    }\n                    break;\n                }");
    out.append("\n                let (Some(&feature_id), Some(&threshold), Some(&true_id), Some(&false_id)) = (\n                    feature_ids.get(idx),\n                    split_values.get(idx),\n                    true_node_ids.get(idx),\n                    false_node_ids.get(idx),\n                ) else {\n                    break;\n                };\n                let feature_id = feature_id as usize;\n                let feature_val = if feature_id < sample_features.len() {\n                    sample_features[feature_id]\n                } else {\n                    0.0\n                };");
    out.append("\n                let go_true = if feature_val.is_nan() {\n                    missing_tracks_true.get(idx).copied().unwrap_or(0) != 0\n                } else {\n                    match mode {\n                        \"BRANCH_LEQ\" => feature_val <= threshold,\n                        \"BRANCH_LT\" => feature_val < threshold,\n                        \"BRANCH_GTE\" => feature_val >= threshold,\n                        \"BRANCH_GT\" => feature_val > threshold,\n                        \"BRANCH_EQ\" => (feature_val - threshold).abs() < 1e-6,\n                        \"BRANCH_NEQ\" => (feature_val - threshold).abs() >= 1e-6,\n                        _ => feature_val <= threshold,\n                    }\n                };\n                current_node_id = if go_true { true_id } else { false_id };");
    out.append("\n            }\n        }\n    }\n    let post_transform = ");
    proof {
        reveal(tree_eval_text);
    }
    assert(final(out)@ =~= old(out)@ + tree_eval_text(input@));
}

fn push_outputs(out: &mut String, labels: &str, probs: &str)
    ensures
        final(out)@ == old(out)@ + tree_outputs_text(labels@, probs@),
{
    out.append("\n    let ");
    out.append(labels);
    out.append(" = Tensor::<B, 1, burn::tensor::Int>::from_data(\n        burn::tensor::TensorData::from(&labels[..]),\n        &*self.device\n    );\n    let probs_flat: Vec<f32> = all_scores.into_iter().flatten().collect();\n    let ");
    out.append(probs);
    out.append(" = Tensor::<B, 2>::from_data(\n        burn::tensor::TensorData::new(probs_flat, [batch_size, num_classes]),\n        &*self.device\n    );\n    (");
    out.append(labels);
    out.append(", ");
    out.append(probs);
    out.append(")\n}");
    proof {
        reveal(tree_outputs_text);
    }
    assert(final(out)@ =~= old(out)@ + tree_outputs_text(labels@, probs@));
}

fn push_transform(out: &mut String)
    ensures
        final(out)@ == old(out)@ + tree_transform_text(),
{
    out.append(";\n    match post_transform {");
    out.append("\n        \"SOFTMAX\" => {\n            for scores in &mut all_scores {\n                let max_score = scores.iter().copied().fold(f32::NEG_INFINITY, f32::max);\n                let exp_scores: Vec<f32> = scores.iter().map(|&s| (s - max_score).exp()).collect();\n                let sum: f32 = exp_scores.iter().sum();\n                for (i, &exp_s) in exp_scores.iter().enumerate() {\n                    scores[i] = exp_s / sum;\n                }\n            }\n        }");
    out.append("\n        \"LOGISTIC\" => {\n            for scores in &mut all_scores {\n                for score in scores.iter_mut() {\n                    *score = 1.0 / (1.0 + (-*score).exp());\n                }\n            }\n        }");
    out.append("\n        \"SOFTMAX_ZERO\" => {\n            for scores in &mut all_scores {\n                scores.push(0.0);\n                let max_score = scores.iter().copied().fold(f32::NEG_INFINITY, f32::max);\n                let exp_scores: Vec<f32> = scores.iter().map(|&s| (s - max_score).exp()).collect();\n                let sum: f32 = exp_scores.iter().sum();\n                for (i, &exp_s) in exp_scores.iter().enumerate() {\n                    scores[i] = exp_s / sum;\n                }\n                scores.pop();\n            }\n        }");
    out.append("\n        _ => {}\n    }");
    proof {
        reveal(tree_transform_text);
    }
    assert(final(out)@ =~= old(out)@ + tree_transform_text());
}

fn push_full(
    out: &mut String,
    input: &str,
    labels: &str,
    probs: &str,
    c: &TreeEnsembleClassifierConfig,
    lits: &Vec<String>,
    transform_lit: &str,
)
    requires
        tree_ready(c@),
    ensures
        final(out)@ == old(out)@ + tree_full_text(input@, labels@, probs@, c@, lits.deep_view(), transform_lit@),
{
    push_arrays(out, c, lits);
    push_eval(out, input);
    out.append(transform_lit);
    push_transform(out);
    push_argmax(out);
    push_outputs(out, labels, probs);
    assert(final(out)@ =~= old(out)@ + tree_full_text(input@, labels@, probs@, c@, lits.deep_view(), transform_lit@));
}

fn push_fallback(out: &mut String, labels: &str, probs: &str)
    ensures
        final(out)@ == old(out)@ + tree_fallback_text(labels@, probs@),
{
    out.append("{\n    let ");
    out.append(labels);
    out.append(" = Tensor::<B, 1, burn::tensor::Int>::zeros([1], &*self.device);\n    let ");
    out.append(probs);
    out.append(" = Tensor::<B, 2>::zeros([1, 2], &*self.device);\n    (");
    out.append(labels);
    out.append(", ");
    out.append(probs);
    out.append(")\n}");
    assert(final(out)@ =~= old(out)@ + tree_fallback_text(labels@, probs@));
}

proof fn lemma_eval_part_in_forward(
    input: Seq<char>,
    labels: Seq<char>,
    probs: Seq<char>,
    c: TreeEnsembleClassifierConfigView,
    lits: Seq<Seq<char>>,
    t: Seq<char>,
    part: Seq<char>,
)
    requires
        tree_ready(c),
        contains(tree_eval_text(input), part),
    ensures
        contains(tree_forward_text(input, labels, probs, c, lits, t), part),
{
    let head = "let ("@ + labels + ", "@ + probs + ") = "@ + tree_arrays_text(c, lits);
    let tail = t + tree_transform_text() + tree_argmax_text() + tree_outputs_text(labels, probs) + ";"@;
    assert(tree_forward_text(input, labels, probs, c, lits, t) =~= head + tree_eval_text(input) + tail);
    lemma_contains_around(head, tree_eval_text(input), tail, part);
}

proof fn lemma_transform_part_in_forward(
    input: Seq<char>,
    labels: Seq<char>,
    probs: Seq<char>,
    c: TreeEnsembleClassifierConfigView,
    lits: Seq<Seq<char>>,
    t: Seq<char>,
    part: Seq<char>,
)
    requires
        tree_ready(c),
        contains(tree_transform_text(), part),
    ensures
        contains(tree_forward_text(input, labels, probs, c, lits, t), part),
{
    let head = "let ("@ + labels + ", "@ + probs + ") = "@ + tree_arrays_text(c, lits) + tree_eval_text(input) + t;
    let tail = tree_argmax_text() + tree_outputs_text(labels, probs) + ";"@;
    assert(tree_forward_text(input, labels, probs, c, lits, t) =~= head + tree_transform_text() + tail);
    lemma_contains_around(head, tree_transform_text(), tail, part);
}

proof fn lemma_argmax_part_in_forward(
    input: Seq<char>,
    labels: Seq<char>,
    probs: Seq<char>,
    c: TreeEnsembleClassifierConfigView,
    lits: Seq<Seq<char>>,
    t: Seq<char>,
    part: Seq<char>,
)
    requires
        tree_ready(c),
        contains(tree_argmax_text(), part),
    ensures
        contains(tree_forward_text(input, labels, probs, c, lits, t), part),
{
    let head = "let ("@ + labels + ", "@ + probs + ") = "@ + tree_arrays_text(c, lits) + tree_eval_text(input) + t + tree_transform_text();
    let tail = tree_outputs_text(labels, probs) + ";"@;
    assert(tree_forward_text(input, labels, probs, c, lits, t) =~= head + tree_argmax_text() + tail);
    lemma_contains_around(head, tree_argmax_text(), tail, part);
}

proof fn lemma_holds_scores_start_at_base_values(input: Seq<char>)
    ensures
        contains(tree_eval_text(input), ("\n    for scores in all_scores.iter_mut() {\n        for (class_idx, score) in scores.iter_mut().enumerate() {\n            *score = base_values.get(class_idx).copied().unwrap_or(0.0);\n        }\n    }"@)),
{
    reveal(tree_eval_text);
    let head = ";\n    let input_shape = "@ + input + ".shape();\n    let batch_size = input_shape.dims[0];\n    let n_features = input_shape.dims[input_shape.dims.len() - 1];\n    let mut all_scores = vec![vec![0.0f32; num_classes]; batch_size];"@;
    let tail = "\n    let input_vals = "@ + input + ".to_data().to_vec::<f32>().unwrap();\n    let mut unique_trees = tree_ids.clone();\n    unique_trees.sort();\n    unique_trees.dedup();"@ + "\n    let mut roots: Vec<(i64, i64)> = Vec::with_capacity(unique_trees.len());\n    for &tree_id in &unique_trees {\n        let root = tree_ids.iter()\n            .zip(node_ids.iter())\n            .filter(|(&t, _)| t == tree_id)\n            .map(|(_, &n)| n)\n            .find(|&n| !(0..tree_ids.len()).any(|j| {\n                tree_ids[j] == tree_id\n                    && modes.get(j).copied() != Some(\"LEAF\")\n                    && (true_node_ids.get(j) == Some(&n) || false_node_ids.get(j) == Some(&n))\n            }))\n            .unwrap_or(0);\n        roots.push((tree_id, root));\n    }"@ + "\n    for sample_idx in 0..batch_size {\n        let sample_offset = sample_idx * n_features;\n        let sample_features: Vec<f32> = input_vals[sample_offset..sample_offset + n_features].to_vec();\n        for &(tree_id, root) in &roots {\n            let mut current_node_id = root;\n            loop {\n                let node_idx = tree_ids.iter()\n                    .zip(node_ids.iter())\n                    .position(|(&t, &n)| t == tree_id && n == current_node_id);\n                let Some(idx) = node_idx else {\n                    break;\n                };\n                let mode = modes[idx];"@ + "\n                if mode == \"LEAF\" {\n                    for (((&ct, &cn), &cid), &cw) in class_tree_ids.iter()\n                        .zip(class_node_ids.iter())\n                        .zip(class_ids.iter())\n                        .zip(class_weights.iter()) {\n                        if ct == tree_id && cn == current_node_id {\n                            let class_idx = cid as usize;\n                            if class_idx < num_classes {\n                                all_scores[sample_idx][class_idx] += cw;\n                            }\n                        }\n                    }\n                    break;\n                }"@ + "\n                let (Some(&feature_id), Some(&threshold), Some(&true_id), Some(&false_id)) = (\n                    feature_ids.get(idx),\n                    split_values.get(idx),\n                    true_node_ids.get(idx),\n                    false_node_ids.get(idx),\n                ) else {\n                    break;\n                };\n                let feature_id = feature_id as usize;\n                let feature_val = if feature_id < sample_features.len() {\n                    sample_features[feature_id]\n                } else {\n                    0.0\n                };"@ + "\n                let go_true = if feature_val.is_nan() {\n                    missing_tracks_true.get(idx).copied().unwrap_or(0) != 0\n                } else {\n                    match mode {\n                        \"BRANCH_LEQ\" => feature_val <= threshold,\n                        \"BRANCH_LT\" => feature_val < threshold,\n                        \"BRANCH_GTE\" => feature_val >= threshold,\n                        \"BRANCH_GT\" => feature_val > threshold,\n                        \"BRANCH_EQ\" => (feature_val - threshold).abs() < 1e-6,\n                        \"BRANCH_NEQ\" => (feature_val - threshold).abs() >= 1e-6,\n                        _ => feature_val <= threshold,\n                    }\n                };\n                current_node_id = if go_true { true_id } else { false_id };"@ + "\n            }\n        }\n    }\n    let post_transform = "@;
    assert(tree_eval_text(input) =~= head + ("\n    for scores in all_scores.iter_mut() {\n        for (class_idx, score) in scores.iter_mut().enumerate() {\n            *score = base_values.get(class_idx).copied().unwrap_or(0.0);\n        }\n    }"@) + tail);
    lemma_contains_within(head, ("\n    for scores in all_scores.iter_mut() {\n        for (class_idx, score) in scores.iter_mut().enumerate() {\n            *score = base_values.get(class_idx).copied().unwrap_or(0.0);\n        }\n    }"@), tail);
}

/// Every class score starts at the base value of its class, and at 0 for a
/// class without one, before any tree is walked.
/// The generated code holds this step whenever it walks the trees.
pub proof fn lemma_tree_scores_start_at_base_values(
    input: Seq<char>,
    labels: Seq<char>,
    probs: Seq<char>,
    c: TreeEnsembleClassifierConfigView,
    lits: Seq<Seq<char>>,
    t: Seq<char>,
)
    requires
        tree_ready(c),
    ensures
        contains(tree_forward_text(input, labels, probs, c, lits, t), ("\n    for scores in all_scores.iter_mut() {\n        for (class_idx, score) in scores.iter_mut().enumerate() {\n            *score = base_values.get(class_idx).copied().unwrap_or(0.0);\n        }\n    }"@)),
{
    lemma_holds_scores_start_at_base_values(input);
    lemma_eval_part_in_forward(input, labels, probs, c, lits, t, ("\n    for scores in all_scores.iter_mut() {\n        for (class_idx, score) in scores.iter_mut().enumerate() {\n            *score = base_values.get(class_idx).copied().unwrap_or(0.0);\n        }\n    }"@));
}

proof fn lemma_holds_scores_have_a_row_per_sample(input: Seq<char>)
    ensures
        contains(tree_eval_text(input), (".shape();\n    let batch_size = input_shape.dims[0];\n    let n_features = input_shape.dims[input_shape.dims.len() - 1];\n    let mut all_scores = vec![vec![0.0f32; num_classes]; batch_size];"@)),
{
    reveal(tree_eval_text);
    let head = ";\n    let input_shape = "@ + input;
    let tail = "\n    for scores in all_scores.iter_mut() {\n        for (class_idx, score) in scores.iter_mut().enumerate() {\n            *score = base_values.get(class_idx).copied().unwrap_or(0.0);\n        }\n    }"@ + "\n    let input_vals = "@ + input + ".to_data().to_vec::<f32>().unwrap();\n    let mut unique_trees = tree_ids.clone();\n    unique_trees.sort();\n    unique_trees.dedup();"@ + "\n    let mut roots: Vec<(i64, i64)> = Vec::with_capacity(unique_trees.len());\n    for &tree_id in &unique_trees {\n        let root = tree_ids.iter()\n            .zip(node_ids.iter())\n            .filter(|(&t, _)| t == tree_id)\n            .map(|(_, &n)| n)\n            .find(|&n| !(0..tree_ids.len()).any(|j| {\n                tree_ids[j] == tree_id\n                    && modes.get(j).copied() != Some(\"LEAF\")\n                    && (true_node_ids.get(j) == Some(&n) || false_node_ids.get(j) == Some(&n))\n            }))\n            .unwrap_or(0);\n        roots.push((tree_id, root));\n    }"@ + "\n    for sample_idx in 0..batch_size {\n        let sample_offset = sample_idx * n_features;\n        let sample_features: Vec<f32> = input_vals[sample_offset..sample_offset + n_features].to_vec();\n        for &(tree_id, root) in &roots {\n            let mut current_node_id = root;\n            loop {\n                let node_idx = tree_ids.iter()\n                    .zip(node_ids.iter())\n                    .position(|(&t, &n)| t == tree_id && n == current_node_id);\n                let Some(idx) = node_idx else {\n                    break;\n                };\n                let mode = modes[idx];"@ + "\n                if mode == \"LEAF\" {\n                    for (((&ct, &cn), &cid), &cw) in class_tree_ids.iter()\n                        .zip(class_node_ids.iter())\n                        .zip(class_ids.iter())\n                        .zip(class_weights.iter()) {\n                        if ct == tree_id && cn == current_node_id {\n                            let class_idx = cid as usize;\n                            if class_idx < num_classes {\n                                all_scores[sample_idx][class_idx] += cw;\n                            }\n                        }\n                    }\n                    break;\n                }"@ + "\n                let (Some(&feature_id), Some(&threshold), Some(&true_id), Some(&false_id)) = (\n                    feature_ids.get(idx),\n                    split_values.get(idx),\n                    true_node_ids.get(idx),\n                    false_node_ids.get(idx),\n                ) else {\n                    break;\n                };\n                let feature_id = feature_id as usize;\n                let feature_val = if feature_id < sample_features.len() {\n                    sample_features[feature_id]\n                } else {\n                    0.0\n                };"@ + "\n                let go_true = if feature_val.is_nan() {\n                    missing_tracks_true.get(idx).copied().unwrap_or(0) != 0\n                } else {\n                    match mode {\n                        \"BRANCH_LEQ\" => feature_val <= threshold,\n                        \"BRANCH_LT\" => feature_val < threshold,\n                        \"BRANCH_GTE\" => feature_val >= threshold,\n                        \"BRANCH_GT\" => feature_val > threshold,\n                        \"BRANCH_EQ\" => (feature_val - threshold).abs() < 1e-6,\n                        \"BRANCH_NEQ\" => (feature_val - threshold).abs() >= 1e-6,\n                        _ => feature_val <= threshold,\n                    }\n                };\n                current_node_id = if go_true { true_id } else { false_id };"@ + "\n            }\n        }\n    }\n    let post_transform = "@;
    assert(tree_eval_text(input) =~= head + (".shape();\n    let batch_size = input_shape.dims[0];\n    let n_features = input_shape.dims[input_shape.dims.len() - 1];\n    let mut all_scores = vec![vec![0.0f32; num_classes]; batch_size];"@) + tail);
    lemma_contains_within(head, (".shape();\n    let batch_size = input_shape.dims[0];\n    let n_features = input_shape.dims[input_shape.dims.len() - 1];\n    let mut all_scores = vec![vec![0.0f32; num_classes]; batch_size];"@), tail);
}

/// The scores have one row per sample (the first dimension of the input) and
/// one column per class, and the features of a sample are the input's last dimension.
/// The generated code holds this step whenever it walks the trees.
pub proof fn lemma_tree_scores_have_a_row_per_sample(
    input: Seq<char>,
    labels: Seq<char>,
    probs: Seq<char>,
    c: TreeEnsembleClassifierConfigView,
    lits: Seq<Seq<char>>,
    t: Seq<char>,
)
    requires
        tree_ready(c),
    ensures
        contains(tree_forward_text(input, labels, probs, c, lits, t), (".shape();\n    let batch_size = input_shape.dims[0];\n    let n_features = input_shape.dims[input_shape.dims.len() - 1];\n    let mut all_scores = vec![vec![0.0f32; num_classes]; batch_size];"@)),
{
    lemma_holds_scores_have_a_row_per_sample(input);
    lemma_eval_part_in_forward(input, labels, probs, c, lits, t, (".shape();\n    let batch_size = input_shape.dims[0];\n    let n_features = input_shape.dims[input_shape.dims.len() - 1];\n    let mut all_scores = vec![vec![0.0f32; num_classes]; batch_size];"@));
}

proof fn lemma_holds_reads_the_input_and_distinct_trees(input: Seq<char>)
    ensures
        contains(tree_eval_text(input), ("\n    let input_vals = "@ + input + ".to_data().to_vec::<f32>().unwrap();\n    let mut unique_trees = tree_ids.clone();\n    unique_trees.sort();\n    unique_trees.dedup();"@)),
{
    reveal(tree_eval_text);
    let head = ";\n    let input_shape = "@ + input + ".shape();\n    let batch_size = input_shape.dims[0];\n    let n_features = input_shape.dims[input_shape.dims.len() - 1];\n    let mut all_scores = vec![vec![0.0f32; num_classes]; batch_size];"@ + "\n    for scores in all_scores.iter_mut() {\n        for (class_idx, score) in scores.iter_mut().enumerate() {\n            *score = base_values.get(class_idx).copied().unwrap_or(0.0);\n        }\n    }"@;
    let tail = "\n    let mut roots: Vec<(i64, i64)> = Vec::with_capacity(unique_trees.len());\n    for &tree_id in &unique_trees {\n        let root = tree_ids.iter()\n            .zip(node_ids.iter())\n            .filter(|(&t, _)| t == tree_id)\n            .map(|(_, &n)| n)\n            .find(|&n| !(0..tree_ids.len()).any(|j| {\n                tree_ids[j] == tree_id\n                    && modes.get(j).copied() != Some(\"LEAF\")\n                    && (true_node_ids.get(j) == Some(&n) || false_node_ids.get(j) == Some(&n))\n            }))\n            .unwrap_or(0);\n        roots.push((tree_id, root));\n    }"@ + "\n    for sample_idx in 0..batch_size {\n        let sample_offset = sample_idx * n_features;\n        let sample_features: Vec<f32> = input_vals[sample_offset..sample_offset + n_features].to_vec();\n        for &(tree_id, root) in &roots {\n            let mut current_node_id = root;\n            loop {\n                let node_idx = tree_ids.iter()\n                    .zip(node_ids.iter())\n                    .position(|(&t, &n)| t == tree_id && n == current_node_id);\n                let Some(idx) = node_idx else {\n                    break;\n                };\n                let mode = modes[idx];"@ + "\n                if mode == \"LEAF\" {\n                    for (((&ct, &cn), &cid), &cw) in class_tree_ids.iter()\n                        .zip(class_node_ids.iter())\n                        .zip(class_ids.iter())\n                        .zip(class_weights.iter()) {\n                        if ct == tree_id && cn == current_node_id {\n                            let class_idx = cid as usize;\n                            if class_idx < num_classes {\n                                all_scores[sample_idx][class_idx] += cw;\n                            }\n                        }\n                    }\n                    break;\n                }"@ + "\n                let (Some(&feature_id), Some(&threshold), Some(&true_id), Some(&false_id)) = (\n                    feature_ids.get(idx),\n                    split_values.get(idx),\n                    true_node_ids.get(idx),\n                    false_node_ids.get(idx),\n                ) else {\n                    break;\n                };\n                let feature_id = feature_id as usize;\n                let feature_val = if feature_id < sample_features.len() {\n                    sample_features[feature_id]\n                } else {\n                    0.0\n                };"@ + "\n                let go_true = if feature_val.is_nan() {\n                    missing_tracks_true.get(idx).copied().unwrap_or(0) != 0\n                } else {\n                    match mode {\n                        \"BRANCH_LEQ\" => feature_val <= threshold,\n                        \"BRANCH_LT\" => feature_val < threshold,\n                        \"BRANCH_GTE\" => feature_val >= threshold,\n                        \"BRANCH_GT\" => feature_val > threshold,\n                        \"BRANCH_EQ\" => (feature_val - threshold).abs() < 1e-6,\n                        \"BRANCH_NEQ\" => (feature_val - threshold).abs() >= 1e-6,\n                        _ => feature_val <= threshold,\n                    }\n                };\n                current_node_id = if go_true { true_id } else { false_id };"@ + "\n            }\n        }\n    }\n    let post_transform = "@;
    assert(tree_eval_text(input) =~= head + ("\n    let input_vals = "@ + input + ".to_data().to_vec::<f32>().unwrap();\n    let mut unique_trees = tree_ids.clone();\n    unique_trees.sort();\n    unique_trees.dedup();"@) + tail);
    lemma_contains_within(head, ("\n    let input_vals = "@ + input + ".to_data().to_vec::<f32>().unwrap();\n    let mut unique_trees = tree_ids.clone();\n    unique_trees.sort();\n    unique_trees.dedup();"@), tail);
}

/// The input is read as floats, and the trees walked are the distinct tree ids, in order.
/// The generated code holds this step whenever it walks the trees.
pub proof fn lemma_tree_reads_the_input_and_distinct_trees(
    input: Seq<char>,
    labels: Seq<char>,
    probs: Seq<char>,
    c: TreeEnsembleClassifierConfigView,
    lits: Seq<Seq<char>>,
    t: Seq<char>,
)
    requires
        tree_ready(c),
    ensures
        contains(tree_forward_text(input, labels, probs, c, lits, t), ("\n    let input_vals = "@ + input + ".to_data().to_vec::<f32>().unwrap();\n    let mut unique_trees = tree_ids.clone();\n    unique_trees.sort();\n    unique_trees.dedup();"@)),
{
    lemma_holds_reads_the_input_and_distinct_trees(input);
    lemma_eval_part_in_forward(input, labels, probs, c, lits, t, ("\n    let input_vals = "@ + input + ".to_data().to_vec::<f32>().unwrap();\n    let mut unique_trees = tree_ids.clone();\n    unique_trees.sort();\n    unique_trees.dedup();"@));
}

proof fn lemma_holds_walks_start_at_roots(input: Seq<char>)
    ensures
        contains(tree_eval_text(input), ("\n    let mut roots: Vec<(i64, i64)> = Vec::with_capacity(unique_trees.len());\n    for &tree_id in &unique_trees {\n        let root = tree_ids.iter()\n            .zip(node_ids.iter())\n            .filter(|(&t, _)| t == tree_id)\n            .map(|(_, &n)| n)\n            .find(|&n| !(0..tree_ids.len()).any(|j| {\n                tree_ids[j] == tree_id\n                    && modes.get(j).copied() != Some(\"LEAF\")\n                    && (true_node_ids.get(j) == Some(&n) || false_node_ids.get(j) == Some(&n))\n            }))\n            .unwrap_or(0);\n        roots.push((tree_id, root));\n    }"@)),
{
    reveal(tree_eval_text);
    let head = ";\n    let input_shape = "@ + input + ".shape();\n    let batch_size = input_shape.dims[0];\n    let n_features = input_shape.dims[input_shape.dims.len() - 1];\n    let mut all_scores = vec![vec![0.0f32; num_classes]; batch_size];"@ + "\n    for scores in all_scores.iter_mut() {\n        for (class_idx, score) in scores.iter_mut().enumerate() {\n            *score = base_values.get(class_idx).copied().unwrap_or(0.0);\n        }\n    }"@ + "\n    let input_vals = "@ + input + ".to_data().to_vec::<f32>().unwrap();\n    let mut unique_trees = tree_ids.clone();\n    unique_trees.sort();\n    unique_trees.dedup();"@;
    let tail = "\n    for sample_idx in 0..batch_size {\n        let sample_offset = sample_idx * n_features;\n        let sample_features: Vec<f32> = input_vals[sample_offset..sample_offset + n_features].to_vec();\n        for &(tree_id, root) in &roots {\n            let mut current_node_id = root;\n            loop {\n                let node_idx = tree_ids.iter()\n                    .zip(node_ids.iter())\n                    .position(|(&t, &n)| t == tree_id && n == current_node_id);\n                let Some(idx) = node_idx else {\n                    break;\n                };\n                let mode = modes[idx];"@ + "\n                if mode == \"LEAF\" {\n                    for (((&ct, &cn), &cid), &cw) in class_tree_ids.iter()\n                        .zip(class_node_ids.iter())\n                        .zip(class_ids.iter())\n                        .zip(class_weights.iter()) {\n                        if ct == tree_id && cn == current_node_id {\n                            let class_idx = cid as usize;\n                            if class_idx < num_classes {\n                                all_scores[sample_idx][class_idx] += cw;\n                            }\n                        }\n                    }\n                    break;\n                }"@ + "\n                let (Some(&feature_id), Some(&threshold), Some(&true_id), Some(&false_id)) = (\n                    feature_ids.get(idx),\n                    split_values.get(idx),\n                    true_node_ids.get(idx),\n                    false_node_ids.get(idx),\n                ) else {\n                    break;\n                };\n                let feature_id = feature_id as usize;\n                let feature_val = if feature_id < sample_features.len() {\n                    sample_features[feature_id]\n                } else {\n                    0.0\n                };"@ + "\n                let go_true = if feature_val.is_nan() {\n                    missing_tracks_true.get(idx).copied().unwrap_or(0) != 0\n                } else {\n                    match mode {\n                        \"BRANCH_LEQ\" => feature_val <= threshold,\n                        \"BRANCH_LT\" => feature_val < threshold,\n                        \"BRANCH_GTE\" => feature_val >= threshold,\n                        \"BRANCH_GT\" => feature_val > threshold,\n                        \"BRANCH_EQ\" => (feature_val - threshold).abs() < 1e-6,\n                        \"BRANCH_NEQ\" => (feature_val - threshold).abs() >= 1e-6,\n                        _ => feature_val <= threshold,\n                    }\n                };\n                current_node_id = if go_true { true_id } else { false_id };"@ + "\n            }\n        }\n    }\n    let post_transform = "@;
    assert(tree_eval_text(input) =~= head + ("\n    let mut roots: Vec<(i64, i64)> = Vec::with_capacity(unique_trees.len());\n    for &tree_id in &unique_trees {\n        let root = tree_ids.iter()\n            .zip(node_ids.iter())\n            .filter(|(&t, _)| t == tree_id)\n            .map(|(_, &n)| n)\n            .find(|&n| !(0..tree_ids.len()).any(|j| {\n                tree_ids[j] == tree_id\n                    && modes.get(j).copied() != Some(\"LEAF\")\n                    && (true_node_ids.get(j) == Some(&n) || false_node_ids.get(j) == Some(&n))\n            }))\n            .unwrap_or(0);\n        roots.push((tree_id, root));\n    }"@) + tail);
    lemma_contains_within(head, ("\n    let mut roots: Vec<(i64, i64)> = Vec::with_capacity(unique_trees.len());\n    for &tree_id in &unique_trees {\n        let root = tree_ids.iter()\n            .zip(node_ids.iter())\n            .filter(|(&t, _)| t == tree_id)\n            .map(|(_, &n)| n)\n            .find(|&n| !(0..tree_ids.len()).any(|j| {\n                tree_ids[j] == tree_id\n                    && modes.get(j).copied() != Some(\"LEAF\")\n                    && (true_node_ids.get(j) == Some(&n) || false_node_ids.get(j) == Some(&n))\n            }))\n            .unwrap_or(0);\n        roots.push((tree_id, root));\n    }"@), tail);
}

/// Each tree is walked from its root: the node of the tree that no branch node
/// of the tree points to (node 0 if every node is pointed to).
/// The generated code holds this step whenever it walks the trees.
pub proof fn lemma_tree_walks_start_at_roots(
    input: Seq<char>,
    labels: Seq<char>,
    probs: Seq<char>,
    c: TreeEnsembleClassifierConfigView,
    lits: Seq<Seq<char>>,
    t: Seq<char>,
)
    requires
        tree_ready(c),
    ensures
        contains(tree_forward_text(input, labels, probs, c, lits, t), ("\n    let mut roots: Vec<(i64, i64)> = Vec::with_capacity(unique_trees.len());\n    for &tree_id in &unique_trees {\n        let root = tree_ids.iter()\n            .zip(node_ids.iter())\n            .filter(|(&t, _)| t == tree_id)\n            .map(|(_, &n)| n)\n            .find(|&n| !(0..tree_ids.len()).any(|j| {\n                tree_ids[j] == tree_id\n                    && modes.get(j).copied() != Some(\"LEAF\")\n                    && (true_node_ids.get(j) == Some(&n) || false_node_ids.get(j) == Some(&n))\n            }))\n            .unwrap_or(0);\n        roots.push((tree_id, root));\n    }"@)),
{
    lemma_holds_walks_start_at_roots(input);
    lemma_eval_part_in_forward(input, labels, probs, c, lits, t, ("\n    let mut roots: Vec<(i64, i64)> = Vec::with_capacity(unique_trees.len());\n    for &tree_id in &unique_trees {\n        let root = tree_ids.iter()\n            .zip(node_ids.iter())\n            .filter(|(&t, _)| t == tree_id)\n            .map(|(_, &n)| n)\n            .find(|&n| !(0..tree_ids.len()).any(|j| {\n                tree_ids[j] == tree_id\n                    && modes.get(j).copied() != Some(\"LEAF\")\n                    && (true_node_ids.get(j) == Some(&n) || false_node_ids.get(j) == Some(&n))\n            }))\n            .unwrap_or(0);\n        roots.push((tree_id, root));\n    }"@));
}

proof fn lemma_holds_leaves_add_their_votes(input: Seq<char>)
    ensures
        contains(tree_eval_text(input), ("\n                if mode == \"LEAF\" {\n                    for (((&ct, &cn), &cid), &cw) in class_tree_ids.iter()\n                        .zip(class_node_ids.iter())\n                        .zip(class_ids.iter())\n                        .zip(class_weights.iter()) {\n                        if ct == tree_id && cn == current_node_id {\n                            let class_idx = cid as usize;\n                            if class_idx < num_classes {\n                                all_scores[sample_idx][class_idx] += cw;\n                            }\n                        }\n                    }\n                    break;\n                }"@)),
{
    reveal(tree_eval_text);
    let head = ";\n    let input_shape = "@ + input + ".shape();\n    let batch_size = input_shape.dims[0];\n    let n_features = input_shape.dims[input_shape.dims.len() - 1];\n    let mut all_scores = vec![vec![0.0f32; num_classes]; batch_size];"@ + "\n    for scores in all_scores.iter_mut() {\n        for (class_idx, score) in scores.iter_mut().enumerate() {\n            *score = base_values.get(class_idx).copied().unwrap_or(0.0);\n        }\n    }"@ + "\n    let input_vals = "@ + input + ".to_data().to_vec::<f32>().unwrap();\n    let mut unique_trees = tree_ids.clone();\n    unique_trees.sort();\n    unique_trees.dedup();"@ + "\n    let mut roots: Vec<(i64, i64)> = Vec::with_capacity(unique_trees.len());\n    for &tree_id in &unique_trees {\n        let root = tree_ids.iter()\n            .zip(node_ids.iter())\n            .filter(|(&t, _)| t == tree_id)\n            .map(|(_, &n)| n)\n            .find(|&n| !(0..tree_ids.len()).any(|j| {\n                tree_ids[j] == tree_id\n                    && modes.get(j).copied() != Some(\"LEAF\")\n                    && (true_node_ids.get(j) == Some(&n) || false_node_ids.get(j) == Some(&n))\n            }))\n            .unwrap_or(0);\n        roots.push((tree_id, root));\n    }"@ + "\n    for sample_idx in 0..batch_size {\n        let sample_offset = sample_idx * n_features;\n        let sample_features: Vec<f32> = input_vals[sample_offset..sample_offset + n_features].to_vec();\n        for &(tree_id, root) in &roots {\n            let mut current_node_id = root;\n            loop {\n                let node_idx = tree_ids.iter()\n                    .zip(node_ids.iter())\n                    .position(|(&t, &n)| t == tree_id && n == current_node_id);\n                let Some(idx) = node_idx else {\n                    break;\n                };\n                let mode = modes[idx];"@;
    let tail = "\n                let (Some(&feature_id), Some(&threshold), Some(&true_id), Some(&false_id)) = (\n                    feature_ids.get(idx),\n                    split_values.get(idx),\n                    true_node_ids.get(idx),\n                    false_node_ids.get(idx),\n                ) else {\n                    break;\n                };\n                let feature_id = feature_id as usize;\n                let feature_val = if feature_id < sample_features.len() {\n                    sample_features[feature_id]\n                } else {\n                    0.0\n                };"@ + "\n                let go_true = if feature_val.is_nan() {\n                    missing_tracks_true.get(idx).copied().unwrap_or(0) != 0\n                } else {\n                    match mode {\n                        \"BRANCH_LEQ\" => feature_val <= threshold,\n                        \"BRANCH_LT\" => feature_val < threshold,\n                        \"BRANCH_GTE\" => feature_val >= threshold,\n                        \"BRANCH_GT\" => feature_val > threshold,\n                        \"BRANCH_EQ\" => (feature_val - threshold).abs() < 1e-6,\n                        \"BRANCH_NEQ\" => (feature_val - threshold).abs() >= 1e-6,\n                        _ => feature_val <= threshold,\n                    }\n                };\n                current_node_id = if go_true { true_id } else { false_id };"@ + "\n            }\n        }\n    }\n    let post_transform = "@;
    assert(tree_eval_text(input) =~= head + ("\n                if mode == \"LEAF\" {\n                    for (((&ct, &cn), &cid), &cw) in class_tree_ids.iter()\n                        .zip(class_node_ids.iter())\n                        .zip(class_ids.iter())\n                        .zip(class_weights.iter()) {\n                        if ct == tree_id && cn == current_node_id {\n                            let class_idx = cid as usize;\n                            if class_idx < num_classes {\n                                all_scores[sample_idx][class_idx] += cw;\n                            }\n                        }\n                    }\n                    break;\n                }"@) + tail);
    lemma_contains_within(head, ("\n                if mode == \"LEAF\" {\n                    for (((&ct, &cn), &cid), &cw) in class_tree_ids.iter()\n                        .zip(class_node_ids.iter())\n                        .zip(class_ids.iter())\n                        .zip(class_weights.iter()) {\n                        if ct == tree_id && cn == current_node_id {\n                            let class_idx = cid as usize;\n                            if class_idx < num_classes {\n                                all_scores[sample_idx][class_idx] += cw;\n                            }\n                        }\n                    }\n                    break;\n                }"@), tail);
}

/// At a leaf, the weight of each vote of that leaf (same tree, same node) for
/// a class below the number of classes is added to that class's score, and the
/// walk of the tree ends.
/// The generated code holds this step whenever it walks the trees.
pub proof fn lemma_tree_leaves_add_their_votes(
    input: Seq<char>,
    labels: Seq<char>,
    probs: Seq<char>,
    c: TreeEnsembleClassifierConfigView,
    lits: Seq<Seq<char>>,
    t: Seq<char>,
)
    requires
        tree_ready(c),
    ensures
        contains(tree_forward_text(input, labels, probs, c, lits, t), ("\n                if mode == \"LEAF\" {\n                    for (((&ct, &cn), &cid), &cw) in class_tree_ids.iter()\n                        .zip(class_node_ids.iter())\n                        .zip(class_ids.iter())\n                        .zip(class_weights.iter()) {\n                        if ct == tree_id && cn == current_node_id {\n                            let class_idx = cid as usize;\n                            if class_idx < num_classes {\n                                all_scores[sample_idx][class_idx] += cw;\n                            }\n                        }\n                    }\n                    break;\n                }"@)),
{
    lemma_holds_leaves_add_their_votes(input);
    lemma_eval_part_in_forward(input, labels, probs, c, lits, t, ("\n                if mode == \"LEAF\" {\n                    for (((&ct, &cn), &cid), &cw) in class_tree_ids.iter()\n                        .zip(class_node_ids.iter())\n                        .zip(class_ids.iter())\n                        .zip(class_weights.iter()) {\n                        if ct == tree_id && cn == current_node_id {\n                            let class_idx = cid as usize;\n                            if class_idx < num_classes {\n                                all_scores[sample_idx][class_idx] += cw;\n                            }\n                        }\n                    }\n                    break;\n                }"@));
}

proof fn lemma_holds_samples_walk_every_tree(input: Seq<char>)
    ensures
        contains(tree_eval_text(input), ("\n    for sample_idx in 0..batch_size {\n        let sample_offset = sample_idx * n_features;\n        let sample_features: Vec<f32> = input_vals[sample_offset..sample_offset + n_features].to_vec();\n        for &(tree_id, root) in &roots {\n            let mut current_node_id = root;\n            loop {\n                let node_idx = tree_ids.iter()\n                    .zip(node_ids.iter())\n                    .position(|(&t, &n)| t == tree_id && n == current_node_id);\n                let Some(idx) = node_idx else {\n                    break;\n                };\n                let mode = modes[idx];"@)),
{
    reveal(tree_eval_text);
    let head = ";\n    let input_shape = "@ + input + ".shape();\n    let batch_size = input_shape.dims[0];\n    let n_features = input_shape.dims[input_shape.dims.len() - 1];\n    let mut all_scores = vec![vec![0.0f32; num_classes]; batch_size];"@ + "\n    for scores in all_scores.iter_mut() {\n        for (class_idx, score) in scores.iter_mut().enumerate() {\n            *score = base_values.get(class_idx).copied().unwrap_or(0.0);\n        }\n    }"@ + "\n    let input_vals = "@ + input + ".to_data().to_vec::<f32>().unwrap();\n    let mut unique_trees = tree_ids.clone();\n    unique_trees.sort();\n    unique_trees.dedup();"@ + "\n    let mut roots: Vec<(i64, i64)> = Vec::with_capacity(unique_trees.len());\n    for &tree_id in &unique_trees {\n        let root = tree_ids.iter()\n            .zip(node_ids.iter())\n            .filter(|(&t, _)| t == tree_id)\n            .map(|(_, &n)| n)\n            .find(|&n| !(0..tree_ids.len()).any(|j| {\n                tree_ids[j] == tree_id\n                    && modes.get(j).copied() != Some(\"LEAF\")\n                    && (true_node_ids.get(j) == Some(&n) || false_node_ids.get(j) == Some(&n))\n            }))\n            .unwrap_or(0);\n        roots.push((tree_id, root));\n    }"@;
    let tail = "\n                if mode == \"LEAF\" {\n                    for (((&ct, &cn), &cid), &cw) in class_tree_ids.iter()\n                        .zip(class_node_ids.iter())\n                        .zip(class_ids.iter())\n                        .zip(class_weights.iter()) {\n                        if ct == tree_id && cn == current_node_id {\n                            let class_idx = cid as usize;\n                            if class_idx < num_classes {\n                                all_scores[sample_idx][class_idx] += cw;\n                            }\n                        }\n                    }\n                    break;\n                }"@ + "\n                let (Some(&feature_id), Some(&threshold), Some(&true_id), Some(&false_id)) = (\n                    feature_ids.get(idx),\n                    split_values.get(idx),\n                    true_node_ids.get(idx),\n                    false_node_ids.get(idx),\n                ) else {\n                    break;\n                };\n                let feature_id = feature_id as usize;\n                let feature_val = if feature_id < sample_features.len() {\n                    sample_features[feature_id]\n                } else {\n                    0.0\n                };"@ + "\n                let go_true = if feature_val.is_nan() {\n                    missing_tracks_true.get(idx).copied().unwrap_or(0) != 0\n                } else {\n                    match mode {\n                        \"BRANCH_LEQ\" => feature_val <= threshold,\n                        \"BRANCH_LT\" => feature_val < threshold,\n                        \"BRANCH_GTE\" => feature_val >= threshold,\n                        \"BRANCH_GT\" => feature_val > threshold,\n                        \"BRANCH_EQ\" => (feature_val - threshold).abs() < 1e-6,\n                        \"BRANCH_NEQ\" => (feature_val - threshold).abs() >= 1e-6,\n                        _ => feature_val <= threshold,\n                    }\n                };\n                current_node_id = if go_true { true_id } else { false_id };"@ + "\n            }\n        }\n    }\n    let post_transform = "@;
    assert(tree_eval_text(input) =~= head + ("\n    for sample_idx in 0..batch_size {\n        let sample_offset = sample_idx * n_features;\n        let sample_features: Vec<f32> = input_vals[sample_offset..sample_offset + n_features].to_vec();\n        for &(tree_id, root) in &roots {\n            let mut current_node_id = root;\n            loop {\n                let node_idx = tree_ids.iter()\n                    .zip(node_ids.iter())\n                    .position(|(&t, &n)| t == tree_id && n == current_node_id);\n                let Some(idx) = node_idx else {\n                    break;\n                };\n                let mode = modes[idx];"@) + tail);
    lemma_contains_within(head, ("\n    for sample_idx in 0..batch_size {\n        let sample_offset = sample_idx * n_features;\n        let sample_features: Vec<f32> = input_vals[sample_offset..sample_offset + n_features].to_vec();\n        for &(tree_id, root) in &roots {\n            let mut current_node_id = root;\n            loop {\n                let node_idx = tree_ids.iter()\n                    .zip(node_ids.iter())\n                    .position(|(&t, &n)| t == tree_id && n == current_node_id);\n                let Some(idx) = node_idx else {\n                    break;\n                };\n                let mode = modes[idx];"@), tail);
}

/// Every sample walks every tree from its root, finding each node by its tree
/// id and node id; the walk of a tree ends where no such node exists.
/// The generated code holds this step whenever it walks the trees.
pub proof fn lemma_tree_samples_walk_every_tree(
    input: Seq<char>,
    labels: Seq<char>,
    probs: Seq<char>,
    c: TreeEnsembleClassifierConfigView,
    lits: Seq<Seq<char>>,
    t: Seq<char>,
)
    requires
        tree_ready(c),
    ensures
        contains(tree_forward_text(input, labels, probs, c, lits, t), ("\n    for sample_idx in 0..batch_size {\n        let sample_offset = sample_idx * n_features;\n        let sample_features: Vec<f32> = input_vals[sample_offset..sample_offset + n_features].to_vec();\n        for &(tree_id, root) in &roots {\n            let mut current_node_id = root;\n            loop {\n                let node_idx = tree_ids.iter()\n                    .zip(node_ids.iter())\n                    .position(|(&t, &n)| t == tree_id && n == current_node_id);\n                let Some(idx) = node_idx else {\n                    break;\n                };\n                let mode = modes[idx];"@)),
{
    lemma_holds_samples_walk_every_tree(input);
    lemma_eval_part_in_forward(input, labels, probs, c, lits, t, ("\n    for sample_idx in 0..batch_size {\n        let sample_offset = sample_idx * n_features;\n        let sample_features: Vec<f32> = input_vals[sample_offset..sample_offset + n_features].to_vec();\n        for &(tree_id, root) in &roots {\n            let mut current_node_id = root;\n            loop {\n                let node_idx = tree_ids.iter()\n                    .zip(node_ids.iter())\n                    .position(|(&t, &n)| t == tree_id && n == current_node_id);\n                let Some(idx) = node_idx else {\n                    break;\n                };\n                let mode = modes[idx];"@));
}

proof fn lemma_holds_branches_read_their_own_attributes(input: Seq<char>)
    ensures
        contains(tree_eval_text(input), ("\n                let (Some(&feature_id), Some(&threshold), Some(&true_id), Some(&false_id)) = (\n                    feature_ids.get(idx),\n                    split_values.get(idx),\n                    true_node_ids.get(idx),\n                    false_node_ids.get(idx),\n                ) else {\n                    break;\n                };\n                let feature_id = feature_id as usize;\n                let feature_val = if feature_id < sample_features.len() {\n                    sample_features[feature_id]\n                } else {\n                    0.0\n                };"@)),
{
    reveal(tree_eval_text);
    let head = ";\n    let input_shape = "@ + input + ".shape();\n    let batch_size = input_shape.dims[0];\n    let n_features = input_shape.dims[input_shape.dims.len() - 1];\n    let mut all_scores = vec![vec![0.0f32; num_classes]; batch_size];"@ + "\n    for scores in all_scores.iter_mut() {\n        for (class_idx, score) in scores.iter_mut().enumerate() {\n            *score = base_values.get(class_idx).copied().unwrap_or(0.0);\n        }\n    }"@ + "\n    let input_vals = "@ + input + ".to_data().to_vec::<f32>().unwrap();\n    let mut unique_trees = tree_ids.clone();\n    unique_trees.sort();\n    unique_trees.dedup();"@ + "\n    let mut roots: Vec<(i64, i64)> = Vec::with_capacity(unique_trees.len());\n    for &tree_id in &unique_trees {\n        let root = tree_ids.iter()\n            .zip(node_ids.iter())\n            .filter(|(&t, _)| t == tree_id)\n            .map(|(_, &n)| n)\n            .find(|&n| !(0..tree_ids.len()).any(|j| {\n                tree_ids[j] == tree_id\n                    && modes.get(j).copied() != Some(\"LEAF\")\n                    && (true_node_ids.get(j) == Some(&n) || false_node_ids.get(j) == Some(&n))\n            }))\n            .unwrap_or(0);\n        roots.push((tree_id, root));\n    }"@ + "\n    for sample_idx in 0..batch_size {\n        let sample_offset = sample_idx * n_features;\n        let sample_features: Vec<f32> = input_vals[sample_offset..sample_offset + n_features].to_vec();\n        for &(tree_id, root) in &roots {\n            let mut current_node_id = root;\n            loop {\n                let node_idx = tree_ids.iter()\n                    .zip(node_ids.iter())\n                    .position(|(&t, &n)| t == tree_id && n == current_node_id);\n                let Some(idx) = node_idx else {\n                    break;\n                };\n                let mode = modes[idx];"@ + "\n                if mode == \"LEAF\" {\n                    for (((&ct, &cn), &cid), &cw) in class_tree_ids.iter()\n                        .zip(class_node_ids.iter())\n                        .zip(class_ids.iter())\n                        .zip(class_weights.iter()) {\n                        if ct == tree_id && cn == current_node_id {\n                            let class_idx = cid as usize;\n                            if class_idx < num_classes {\n                                all_scores[sample_idx][class_idx] += cw;\n                            }\n                        }\n                    }\n                    break;\n                }"@;
    let tail = "\n                let go_true = if feature_val.is_nan() {\n                    missing_tracks_true.get(idx).copied().unwrap_or(0) != 0\n                } else {\n                    match mode {\n                        \"BRANCH_LEQ\" => feature_val <= threshold,\n                        \"BRANCH_LT\" => feature_val < threshold,\n                        \"BRANCH_GTE\" => feature_val >= threshold,\n                        \"BRANCH_GT\" => feature_val > threshold,\n                        \"BRANCH_EQ\" => (feature_val - threshold).abs() < 1e-6,\n                        \"BRANCH_NEQ\" => (feature_val - threshold).abs() >= 1e-6,\n                        _ => feature_val <= threshold,\n                    }\n                };\n                current_node_id = if go_true { true_id } else { false_id };"@ + "\n            }\n        }\n    }\n    let post_transform = "@;
    assert(tree_eval_text(input) =~= head + ("\n                let (Some(&feature_id), Some(&threshold), Some(&true_id), Some(&false_id)) = (\n                    feature_ids.get(idx),\n                    split_values.get(idx),\n                    true_node_ids.get(idx),\n                    false_node_ids.get(idx),\n                ) else {\n                    break;\n                };\n                let feature_id = feature_id as usize;\n                let feature_val = if feature_id < sample_features.len() {\n                    sample_features[feature_id]\n                } else {\n                    0.0\n                };"@) + tail);
    lemma_contains_within(head, ("\n                let (Some(&feature_id), Some(&threshold), Some(&true_id), Some(&false_id)) = (\n                    feature_ids.get(idx),\n                    split_values.get(idx),\n                    true_node_ids.get(idx),\n                    false_node_ids.get(idx),\n                ) else {\n                    break;\n                };\n                let feature_id = feature_id as usize;\n                let feature_val = if feature_id < sample_features.len() {\n                    sample_features[feature_id]\n                } else {\n                    0.0\n                };"@), tail);
}

/// A branch node reads its feature, threshold, true child and false child at
/// its own position, ends the walk when one is missing, and takes 0 for a
/// feature index beyond the sample's features.
/// The generated code holds this step whenever it walks the trees.
pub proof fn lemma_tree_branches_read_their_own_attributes(
    input: Seq<char>,
    labels: Seq<char>,
    probs: Seq<char>,
    c: TreeEnsembleClassifierConfigView,
    lits: Seq<Seq<char>>,
    t: Seq<char>,
)
    requires
        tree_ready(c),
    ensures
        contains(tree_forward_text(input, labels, probs, c, lits, t), ("\n                let (Some(&feature_id), Some(&threshold), Some(&true_id), Some(&false_id)) = (\n                    feature_ids.get(idx),\n                    split_values.get(idx),\n                    true_node_ids.get(idx),\n                    false_node_ids.get(idx),\n                ) else {\n                    break;\n                };\n                let feature_id = feature_id as usize;\n                let feature_val = if feature_id < sample_features.len() {\n                    sample_features[feature_id]\n                } else {\n                    0.0\n                };"@)),
{
    lemma_holds_branches_read_their_own_attributes(input);
    lemma_eval_part_in_forward(input, labels, probs, c, lits, t, ("\n                let (Some(&feature_id), Some(&threshold), Some(&true_id), Some(&false_id)) = (\n                    feature_ids.get(idx),\n                    split_values.get(idx),\n                    true_node_ids.get(idx),\n                    false_node_ids.get(idx),\n                ) else {\n                    break;\n                };\n                let feature_id = feature_id as usize;\n                let feature_val = if feature_id < sample_features.len() {\n                    sample_features[feature_id]\n                } else {\n                    0.0\n                };"@));
}

proof fn lemma_holds_branches_follow_comparison(input: Seq<char>)
    ensures
        contains(tree_eval_text(input), ("\n                let go_true = if feature_val.is_nan() {\n                    missing_tracks_true.get(idx).copied().unwrap_or(0) != 0\n                } else {\n                    match mode {\n                        \"BRANCH_LEQ\" => feature_val <= threshold,\n                        \"BRANCH_LT\" => feature_val < threshold,\n                        \"BRANCH_GTE\" => feature_val >= threshold,\n                        \"BRANCH_GT\" => feature_val > threshold,\n                        \"BRANCH_EQ\" => (feature_val - threshold).abs() < 1e-6,\n                        \"BRANCH_NEQ\" => (feature_val - threshold).abs() >= 1e-6,\n                        _ => feature_val <= threshold,\n                    }\n                };\n                current_node_id = if go_true { true_id } else { false_id };"@)),
{
    reveal(tree_eval_text);
    let head = ";\n    let input_shape = "@ + input + ".shape();\n    let batch_size = input_shape.dims[0];\n    let n_features = input_shape.dims[input_shape.dims.len() - 1];\n    let mut all_scores = vec![vec![0.0f32; num_classes]; batch_size];"@ + "\n    for scores in all_scores.iter_mut() {\n        for (class_idx, score) in scores.iter_mut().enumerate() {\n            *score = base_values.get(class_idx).copied().unwrap_or(0.0);\n        }\n    }"@ + "\n    let input_vals = "@ + input + ".to_data().to_vec::<f32>().unwrap();\n    let mut unique_trees = tree_ids.clone();\n    unique_trees.sort();\n    unique_trees.dedup();"@ + "\n    let mut roots: Vec<(i64, i64)> = Vec::with_capacity(unique_trees.len());\n    for &tree_id in &unique_trees {\n        let root = tree_ids.iter()\n            .zip(node_ids.iter())\n            .filter(|(&t, _)| t == tree_id)\n            .map(|(_, &n)| n)\n            .find(|&n| !(0..tree_ids.len()).any(|j| {\n                tree_ids[j] == tree_id\n                    && modes.get(j).copied() != Some(\"LEAF\")\n                    && (true_node_ids.get(j) == Some(&n) || false_node_ids.get(j) == Some(&n))\n            }))\n            .unwrap_or(0);\n        roots.push((tree_id, root));\n    }"@ + "\n    for sample_idx in 0..batch_size {\n        let sample_offset = sample_idx * n_features;\n        let sample_features: Vec<f32> = input_vals[sample_offset..sample_offset + n_features].to_vec();\n        for &(tree_id, root) in &roots {\n            let mut current_node_id = root;\n            loop {\n                let node_idx = tree_ids.iter()\n                    .zip(node_ids.iter())\n                    .position(|(&t, &n)| t == tree_id && n == current_node_id);\n                let Some(idx) = node_idx else {\n                    break;\n                };\n                let mode = modes[idx];"@ + "\n                if mode == \"LEAF\" {\n                    for (((&ct, &cn), &cid), &cw) in class_tree_ids.iter()\n                        .zip(class_node_ids.iter())\n                        .zip(class_ids.iter())\n                        .zip(class_weights.iter()) {\n                        if ct == tree_id && cn == current_node_id {\n                            let class_idx = cid as usize;\n                            if class_idx < num_classes {\n                                all_scores[sample_idx][class_idx] += cw;\n                            }\n                        }\n                    }\n                    break;\n                }"@ + "\n                let (Some(&feature_id), Some(&threshold), Some(&true_id), Some(&false_id)) = (\n                    feature_ids.get(idx),\n                    split_values.get(idx),\n                    true_node_ids.get(idx),\n                    false_node_ids.get(idx),\n                ) else {\n                    break;\n                };\n                let feature_id = feature_id as usize;\n                let feature_val = if feature_id < sample_features.len() {\n                    sample_features[feature_id]\n                } else {\n                    0.0\n                };"@;
    let tail = "\n            }\n        }\n    }\n    let post_transform = "@;
    assert(tree_eval_text(input) =~= head + ("\n                let go_true = if feature_val.is_nan() {\n                    missing_tracks_true.get(idx).copied().unwrap_or(0) != 0\n                } else {\n                    match mode {\n                        \"BRANCH_LEQ\" => feature_val <= threshold,\n                        \"BRANCH_LT\" => feature_val < threshold,\n                        \"BRANCH_GTE\" => feature_val >= threshold,\n                        \"BRANCH_GT\" => feature_val > threshold,\n                        \"BRANCH_EQ\" => (feature_val - threshold).abs() < 1e-6,\n                        \"BRANCH_NEQ\" => (feature_val - threshold).abs() >= 1e-6,\n                        _ => feature_val <= threshold,\n                    }\n                };\n                current_node_id = if go_true { true_id } else { false_id };"@) + tail);
    lemma_contains_within(head, ("\n                let go_true = if feature_val.is_nan() {\n                    missing_tracks_true.get(idx).copied().unwrap_or(0) != 0\n                } else {\n                    match mode {\n                        \"BRANCH_LEQ\" => feature_val <= threshold,\n                        \"BRANCH_LT\" => feature_val < threshold,\n                        \"BRANCH_GTE\" => feature_val >= threshold,\n                        \"BRANCH_GT\" => feature_val > threshold,\n                        \"BRANCH_EQ\" => (feature_val - threshold).abs() < 1e-6,\n                        \"BRANCH_NEQ\" => (feature_val - threshold).abs() >= 1e-6,\n                        _ => feature_val <= threshold,\n                    }\n                };\n                current_node_id = if go_true { true_id } else { false_id };"@), tail);
}

/// At a branch, a missing (NaN) feature goes to the true child exactly when the
/// node tracks missing values as true; any other value goes to the true child
/// exactly when the node's comparison of the feature with the threshold holds
/// (`<=`, `<`, `>=`, `>`, equal or not equal within 1e-6; `<=` for an unknown mode).
/// The generated code holds this step whenever it walks the trees.
pub proof fn lemma_tree_branches_follow_comparison(
    input: Seq<char>,
    labels: Seq<char>,
    probs: Seq<char>,
    c: TreeEnsembleClassifierConfigView,
    lits: Seq<Seq<char>>,
    t: Seq<char>,
)
    requires
        tree_ready(c),
    ensures
        contains(tree_forward_text(input, labels, probs, c, lits, t), ("\n                let go_true = if feature_val.is_nan() {\n                    missing_tracks_true.get(idx).copied().unwrap_or(0) != 0\n                } else {\n                    match mode {\n                        \"BRANCH_LEQ\" => feature_val <= threshold,\n                        \"BRANCH_LT\" => feature_val < threshold,\n                        \"BRANCH_GTE\" => feature_val >= threshold,\n                        \"BRANCH_GT\" => feature_val > threshold,\n                        \"BRANCH_EQ\" => (feature_val - threshold).abs() < 1e-6,\n                        \"BRANCH_NEQ\" => (feature_val - threshold).abs() >= 1e-6,\n                        _ => feature_val <= threshold,\n                    }\n                };\n                current_node_id = if go_true { true_id } else { false_id };"@)),
{
    lemma_holds_branches_follow_comparison(input);
    lemma_eval_part_in_forward(input, labels, probs, c, lits, t, ("\n                let go_true = if feature_val.is_nan() {\n                    missing_tracks_true.get(idx).copied().unwrap_or(0) != 0\n                } else {\n                    match mode {\n                        \"BRANCH_LEQ\" => feature_val <= threshold,\n                        \"BRANCH_LT\" => feature_val < threshold,\n                        \"BRANCH_GTE\" => feature_val >= threshold,\n                        \"BRANCH_GT\" => feature_val > threshold,\n                        \"BRANCH_EQ\" => (feature_val - threshold).abs() < 1e-6,\n                        \"BRANCH_NEQ\" => (feature_val - threshold).abs() >= 1e-6,\n                        _ => feature_val <= threshold,\n                    }\n                };\n                current_node_id = if go_true { true_id } else { false_id };"@));
}

proof fn lemma_holds_softmax_normalizes()
    ensures
        contains(tree_transform_text(), ("\n        \"SOFTMAX\" => {\n            for scores in &mut all_scores {\n                let max_score = scores.iter().copied().fold(f32::NEG_INFINITY, f32::max);\n                let exp_scores: Vec<f32> = scores.iter().map(|&s| (s - max_score).exp()).collect();\n                let sum: f32 = exp_scores.iter().sum();\n                for (i, &exp_s) in exp_scores.iter().enumerate() {\n                    scores[i] = exp_s / sum;\n                }\n            }\n        }"@)),
{
    reveal(tree_transform_text);
    let head = ";\n    match post_transform {"@;
    let tail = "\n        \"LOGISTIC\" => {\n            for scores in &mut all_scores {\n                for score in scores.iter_mut() {\n                    *score = 1.0 / (1.0 + (-*score).exp());\n                }\n            }\n        }"@ + "\n        \"SOFTMAX_ZERO\" => {\n            for scores in &mut all_scores {\n                scores.push(0.0);\n                let max_score = scores.iter().copied().fold(f32::NEG_INFINITY, f32::max);\n                let exp_scores: Vec<f32> = scores.iter().map(|&s| (s - max_score).exp()).collect();\n                let sum: f32 = exp_scores.iter().sum();\n                for (i, &exp_s) in exp_scores.iter().enumerate() {\n                    scores[i] = exp_s / sum;\n                }\n                scores.pop();\n            }\n        }"@ + "\n        _ => {}\n    }"@;
    assert(tree_transform_text() =~= head + ("\n        \"SOFTMAX\" => {\n            for scores in &mut all_scores {\n                let max_score = scores.iter().copied().fold(f32::NEG_INFINITY, f32::max);\n                let exp_scores: Vec<f32> = scores.iter().map(|&s| (s - max_score).exp()).collect();\n                let sum: f32 = exp_scores.iter().sum();\n                for (i, &exp_s) in exp_scores.iter().enumerate() {\n                    scores[i] = exp_s / sum;\n                }\n            }\n        }"@) + tail);
    lemma_contains_within(head, ("\n        \"SOFTMAX\" => {\n            for scores in &mut all_scores {\n                let max_score = scores.iter().copied().fold(f32::NEG_INFINITY, f32::max);\n                let exp_scores: Vec<f32> = scores.iter().map(|&s| (s - max_score).exp()).collect();\n                let sum: f32 = exp_scores.iter().sum();\n                for (i, &exp_s) in exp_scores.iter().enumerate() {\n                    scores[i] = exp_s / sum;\n                }\n            }\n        }"@), tail);
}

/// With post transform SOFTMAX each row of scores s becomes e^(s_i - max s) /
/// sum_j e^(s_j - max s): positive scores that sum to 1, in the same order.
/// The generated code holds this step whenever it walks the trees.
pub proof fn lemma_tree_softmax_normalizes(
    input: Seq<char>,
    labels: Seq<char>,
    probs: Seq<char>,
    c: TreeEnsembleClassifierConfigView,
    lits: Seq<Seq<char>>,
    t: Seq<char>,
)
    requires
        tree_ready(c),
    ensures
        contains(tree_forward_text(input, labels, probs, c, lits, t), ("\n        \"SOFTMAX\" => {\n            for scores in &mut all_scores {\n                let max_score = scores.iter().copied().fold(f32::NEG_INFINITY, f32::max);\n                let exp_scores: Vec<f32> = scores.iter().map(|&s| (s - max_score).exp()).collect();\n                let sum: f32 = exp_scores.iter().sum();\n                for (i, &exp_s) in exp_scores.iter().enumerate() {\n                    scores[i] = exp_s / sum;\n                }\n            }\n        }"@)),
{
    lemma_holds_softmax_normalizes();
    lemma_transform_part_in_forward(input, labels, probs, c, lits, t, ("\n        \"SOFTMAX\" => {\n            for scores in &mut all_scores {\n                let max_score = scores.iter().copied().fold(f32::NEG_INFINITY, f32::max);\n                let exp_scores: Vec<f32> = scores.iter().map(|&s| (s - max_score).exp()).collect();\n                let sum: f32 = exp_scores.iter().sum();\n                for (i, &exp_s) in exp_scores.iter().enumerate() {\n                    scores[i] = exp_s / sum;\n                }\n            }\n        }"@));
}

proof fn lemma_holds_logistic_is_sigmoid()
    ensures
        contains(tree_transform_text(), ("\n        \"LOGISTIC\" => {\n            for scores in &mut all_scores {\n                for score in scores.iter_mut() {\n                    *score = 1.0 / (1.0 + (-*score).exp());\n                }\n            }\n        }"@)),
{
    reveal(tree_transform_text);
    let head = ";\n    match post_transform {"@ + "\n        \"SOFTMAX\" => {\n            for scores in &mut all_scores {\n                let max_score = scores.iter().copied().fold(f32::NEG_INFINITY, f32::max);\n                let exp_scores: Vec<f32> = scores.iter().map(|&s| (s - max_score).exp()).collect();\n                let sum: f32 = exp_scores.iter().sum();\n                for (i, &exp_s) in exp_scores.iter().enumerate() {\n                    scores[i] = exp_s / sum;\n                }\n            }\n        }"@;
    let tail = "\n        \"SOFTMAX_ZERO\" => {\n            for scores in &mut all_scores {\n                scores.push(0.0);\n                let max_score = scores.iter().copied().fold(f32::NEG_INFINITY, f32::max);\n                let exp_scores: Vec<f32> = scores.iter().map(|&s| (s - max_score).exp()).collect();\n                let sum: f32 = exp_scores.iter().sum();\n                for (i, &exp_s) in exp_scores.iter().enumerate() {\n                    scores[i] = exp_s / sum;\n                }\n                scores.pop();\n            }\n        }"@ + "\n        _ => {}\n    }"@;
    assert(tree_transform_text() =~= head + ("\n        \"LOGISTIC\" => {\n            for scores in &mut all_scores {\n                for score in scores.iter_mut() {\n                    *score = 1.0 / (1.0 + (-*score).exp());\n                }\n            }\n        }"@) + tail);
    lemma_contains_within(head, ("\n        \"LOGISTIC\" => {\n            for scores in &mut all_scores {\n                for score in scores.iter_mut() {\n                    *score = 1.0 / (1.0 + (-*score).exp());\n                }\n            }\n        }"@), tail);
}

/// With post transform LOGISTIC every class score s becomes the logistic sigmoid
/// 1 / (1 + e^(-s)), which is increasing in s, so the best class stays the best.
/// The generated code holds this step whenever it walks the trees.
pub proof fn lemma_tree_logistic_is_sigmoid(
    input: Seq<char>,
    labels: Seq<char>,
    probs: Seq<char>,
    c: TreeEnsembleClassifierConfigView,
    lits: Seq<Seq<char>>,
    t: Seq<char>,
)
    requires
        tree_ready(c),
    ensures
        contains(tree_forward_text(input, labels, probs, c, lits, t), ("\n        \"LOGISTIC\" => {\n            for scores in &mut all_scores {\n                for score in scores.iter_mut() {\n                    *score = 1.0 / (1.0 + (-*score).exp());\n                }\n            }\n        }"@)),
{
    lemma_holds_logistic_is_sigmoid();
    lemma_transform_part_in_forward(input, labels, probs, c, lits, t, ("\n        \"LOGISTIC\" => {\n            for scores in &mut all_scores {\n                for score in scores.iter_mut() {\n                    *score = 1.0 / (1.0 + (-*score).exp());\n                }\n            }\n        }"@));
}

proof fn lemma_holds_softmax_zero_adds_a_zero_class()
    ensures
        contains(tree_transform_text(), ("\n        \"SOFTMAX_ZERO\" => {\n            for scores in &mut all_scores {\n                scores.push(0.0);\n                let max_score = scores.iter().copied().fold(f32::NEG_INFINITY, f32::max);\n                let exp_scores: Vec<f32> = scores.iter().map(|&s| (s - max_score).exp()).collect();\n                let sum: f32 = exp_scores.iter().sum();\n                for (i, &exp_s) in exp_scores.iter().enumerate() {\n                    scores[i] = exp_s / sum;\n                }\n                scores.pop();\n            }\n        }"@)),
{
    reveal(tree_transform_text);
    let head = ";\n    match post_transform {"@ + "\n        \"SOFTMAX\" => {\n            for scores in &mut all_scores {\n                let max_score = scores.iter().copied().fold(f32::NEG_INFINITY, f32::max);\n                let exp_scores: Vec<f32> = scores.iter().map(|&s| (s - max_score).exp()).collect();\n                let sum: f32 = exp_scores.iter().sum();\n                for (i, &exp_s) in exp_scores.iter().enumerate() {\n                    scores[i] = exp_s / sum;\n                }\n            }\n        }"@ + "\n        \"LOGISTIC\" => {\n            for scores in &mut all_scores {\n                for score in scores.iter_mut() {\n                    *score = 1.0 / (1.0 + (-*score).exp());\n                }\n            }\n        }"@;
    let tail = "\n        _ => {}\n    }"@;
    assert(tree_transform_text() =~= head + ("\n        \"SOFTMAX_ZERO\" => {\n            for scores in &mut all_scores {\n                scores.push(0.0);\n                let max_score = scores.iter().copied().fold(f32::NEG_INFINITY, f32::max);\n                let exp_scores: Vec<f32> = scores.iter().map(|&s| (s - max_score).exp()).collect();\n                let sum: f32 = exp_scores.iter().sum();\n                for (i, &exp_s) in exp_scores.iter().enumerate() {\n                    scores[i] = exp_s / sum;\n                }\n                scores.pop();\n            }\n        }"@) + tail);
    lemma_contains_within(head, ("\n        \"SOFTMAX_ZERO\" => {\n            for scores in &mut all_scores {\n                scores.push(0.0);\n                let max_score = scores.iter().copied().fold(f32::NEG_INFINITY, f32::max);\n                let exp_scores: Vec<f32> = scores.iter().map(|&s| (s - max_score).exp()).collect();\n                let sum: f32 = exp_scores.iter().sum();\n                for (i, &exp_s) in exp_scores.iter().enumerate() {\n                    scores[i] = exp_s / sum;\n                }\n                scores.pop();\n            }\n        }"@), tail);
}

/// With post transform SOFTMAX_ZERO each row is normalized by softmax together
/// with an extra score 0, which is then dropped.
/// The generated code holds this step whenever it walks the trees.
pub proof fn lemma_tree_softmax_zero_adds_a_zero_class(
    input: Seq<char>,
    labels: Seq<char>,
    probs: Seq<char>,
    c: TreeEnsembleClassifierConfigView,
    lits: Seq<Seq<char>>,
    t: Seq<char>,
)
    requires
        tree_ready(c),
    ensures
        contains(tree_forward_text(input, labels, probs, c, lits, t), ("\n        \"SOFTMAX_ZERO\" => {\n            for scores in &mut all_scores {\n                scores.push(0.0);\n                let max_score = scores.iter().copied().fold(f32::NEG_INFINITY, f32::max);\n                let exp_scores: Vec<f32> = scores.iter().map(|&s| (s - max_score).exp()).collect();\n                let sum: f32 = exp_scores.iter().sum();\n                for (i, &exp_s) in exp_scores.iter().enumerate() {\n                    scores[i] = exp_s / sum;\n                }\n                scores.pop();\n            }\n        }"@)),
{
    lemma_holds_softmax_zero_adds_a_zero_class();
    lemma_transform_part_in_forward(input, labels, probs, c, lits, t, ("\n        \"SOFTMAX_ZERO\" => {\n            for scores in &mut all_scores {\n                scores.push(0.0);\n                let max_score = scores.iter().copied().fold(f32::NEG_INFINITY, f32::max);\n                let exp_scores: Vec<f32> = scores.iter().map(|&s| (s - max_score).exp()).collect();\n                let sum: f32 = exp_scores.iter().sum();\n                for (i, &exp_s) in exp_scores.iter().enumerate() {\n                    scores[i] = exp_s / sum;\n                }\n                scores.pop();\n            }\n        }"@));
}

/// Each sample gets the label of its best-scoring class, and of the first
/// such class when several share the best score: a later class replaces the
/// chosen one only with a strictly greater score.
pub proof fn lemma_tree_label_is_first_best_class(
    input: Seq<char>,
    labels: Seq<char>,
    probs: Seq<char>,
    c: TreeEnsembleClassifierConfigView,
    lits: Seq<Seq<char>>,
    t: Seq<char>,
)
    requires
        tree_ready(c),
    ensures
        contains(tree_forward_text(input, labels, probs, c, lits, t), "\n    let mut labels = Vec::with_capacity(batch_size);\n    for scores in &all_scores {\n        let mut max_idx = 0usize;\n        for (i, &score) in scores.iter().enumerate() {\n            if score > scores[max_idx] {\n                max_idx = i;\n            }\n        }\n        labels.push(class_labels[max_idx]);\n    }"@),
{
    reveal(tree_argmax_text);
    lemma_contains_within(Seq::<char>::empty(), "\n    let mut labels = Vec::with_capacity(batch_size);\n    for scores in &all_scores {\n        let mut max_idx = 0usize;\n        for (i, &score) in scores.iter().enumerate() {\n            if score > scores[max_idx] {\n                max_idx = i;\n            }\n        }\n        labels.push(class_labels[max_idx]);\n    }"@, Seq::<char>::empty());
    assert(Seq::<char>::empty() + "\n    let mut labels = Vec::with_capacity(batch_size);\n    for scores in &all_scores {\n        let mut max_idx = 0usize;\n        for (i, &score) in scores.iter().enumerate() {\n            if score > scores[max_idx] {\n                max_idx = i;\n            }\n        }\n        labels.push(class_labels[max_idx]);\n    }"@ + Seq::<char>::empty() =~= tree_argmax_text());
    lemma_argmax_part_in_forward(input, labels, probs, c, lits, t, "\n    let mut labels = Vec::with_capacity(batch_size);\n    for scores in &all_scores {\n        let mut max_idx = 0usize;\n        for (i, &score) in scores.iter().enumerate() {\n            if score > scores[max_idx] {\n                max_idx = i;\n            }\n        }\n        labels.push(class_labels[max_idx]);\n    }"@);
}

proof fn lemma_holds_array_tree_ids(c: TreeEnsembleClassifierConfigView, lits: Seq<Seq<char>>)
    ensures
        contains(tree_nodes_text(c, lits), "let tree_ids: Vec<i64> = vec!["@ + comma_list(i64_literals(ints_or_empty(c.nodes_treeids)))),
{
    assert(int_array_text("{\n    "@, "let tree_ids: Vec<i64> = vec!["@, c.nodes_treeids) =~= "{\n    "@ + ("let tree_ids: Vec<i64> = vec!["@ + comma_list(i64_literals(ints_or_empty(c.nodes_treeids)))) + Seq::<char>::empty());
    lemma_contains_within("{\n    "@, "let tree_ids: Vec<i64> = vec!["@ + comma_list(i64_literals(ints_or_empty(c.nodes_treeids))), Seq::<char>::empty());
    lemma_contains_left(int_array_text("{\n    "@, "let tree_ids: Vec<i64> = vec!["@, c.nodes_treeids), int_array_text("];\n    "@, "let node_ids: Vec<i64> = vec!["@, c.nodes_nodeids), "let tree_ids: Vec<i64> = vec!["@ + comma_list(i64_literals(ints_or_empty(c.nodes_treeids))));
    lemma_contains_left(int_array_text("{\n    "@, "let tree_ids: Vec<i64> = vec!["@, c.nodes_treeids) + int_array_text("];\n    "@, "let node_ids: Vec<i64> = vec!["@, c.nodes_nodeids), int_array_text("];\n    "@, "let feature_ids: Vec<i64> = vec!["@, c.nodes_featureids), "let tree_ids: Vec<i64> = vec!["@ + comma_list(i64_literals(ints_or_empty(c.nodes_treeids))));
    lemma_contains_left(int_array_text("{\n    "@, "let tree_ids: Vec<i64> = vec!["@, c.nodes_treeids) + int_array_text("];\n    "@, "let node_ids: Vec<i64> = vec!["@, c.nodes_nodeids) + int_array_text("];\n    "@, "let feature_ids: Vec<i64> = vec!["@, c.nodes_featureids), lit_array_text("];\n    "@, "let modes: Vec<&str> = vec!["@, lits), "let tree_ids: Vec<i64> = vec!["@ + comma_list(i64_literals(ints_or_empty(c.nodes_treeids))));
    lemma_contains_left(int_array_text("{\n    "@, "let tree_ids: Vec<i64> = vec!["@, c.nodes_treeids) + int_array_text("];\n    "@, "let node_ids: Vec<i64> = vec!["@, c.nodes_nodeids) + int_array_text("];\n    "@, "let feature_ids: Vec<i64> = vec!["@, c.nodes_featureids) + lit_array_text("];\n    "@, "let modes: Vec<&str> = vec!["@, lits), float_array_text("];\n    "@, "let split_values: Vec<f32> = vec!["@, c.nodes_values), "let tree_ids: Vec<i64> = vec!["@ + comma_list(i64_literals(ints_or_empty(c.nodes_treeids))));
    lemma_contains_left(int_array_text("{\n    "@, "let tree_ids: Vec<i64> = vec!["@, c.nodes_treeids) + int_array_text("];\n    "@, "let node_ids: Vec<i64> = vec!["@, c.nodes_nodeids) + int_array_text("];\n    "@, "let feature_ids: Vec<i64> = vec!["@, c.nodes_featureids) + lit_array_text("];\n    "@, "let modes: Vec<&str> = vec!["@, lits) + float_array_text("];\n    "@, "let split_values: Vec<f32> = vec!["@, c.nodes_values), int_array_text("];\n    "@, "let true_node_ids: Vec<i64> = vec!["@, c.nodes_truenodeids), "let tree_ids: Vec<i64> = vec!["@ + comma_list(i64_literals(ints_or_empty(c.nodes_treeids))));
    lemma_contains_left(int_array_text("{\n    "@, "let tree_ids: Vec<i64> = vec!["@, c.nodes_treeids) + int_array_text("];\n    "@, "let node_ids: Vec<i64> = vec!["@, c.nodes_nodeids) + int_array_text("];\n    "@, "let feature_ids: Vec<i64> = vec!["@, c.nodes_featureids) + lit_array_text("];\n    "@, "let modes: Vec<&str> = vec!["@, lits) + float_array_text("];\n    "@, "let split_values: Vec<f32> = vec!["@, c.nodes_values) + int_array_text("];\n    "@, "let true_node_ids: Vec<i64> = vec!["@, c.nodes_truenodeids), int_array_text("];\n    "@, "let false_node_ids: Vec<i64> = vec!["@, c.nodes_falsenodeids), "let tree_ids: Vec<i64> = vec!["@ + comma_list(i64_literals(ints_or_empty(c.nodes_treeids))));
    lemma_contains_left(int_array_text("{\n    "@, "let tree_ids: Vec<i64> = vec!["@, c.nodes_treeids) + int_array_text("];\n    "@, "let node_ids: Vec<i64> = vec!["@, c.nodes_nodeids) + int_array_text("];\n    "@, "let feature_ids: Vec<i64> = vec!["@, c.nodes_featureids) + lit_array_text("];\n    "@, "let modes: Vec<&str> = vec!["@, lits) + float_array_text("];\n    "@, "let split_values: Vec<f32> = vec!["@, c.nodes_values) + int_array_text("];\n    "@, "let true_node_ids: Vec<i64> = vec!["@, c.nodes_truenodeids) + int_array_text("];\n    "@, "let false_node_ids: Vec<i64> = vec!["@, c.nodes_falsenodeids), int_array_text("];\n    "@, "let missing_tracks_true: Vec<i64> = vec!["@, c.nodes_missing_value_tracks_true), "let tree_ids: Vec<i64> = vec!["@ + comma_list(i64_literals(ints_or_empty(c.nodes_treeids))));
}

proof fn lemma_holds_array_node_ids(c: TreeEnsembleClassifierConfigView, lits: Seq<Seq<char>>)
    ensures
        contains(tree_nodes_text(c, lits), "let node_ids: Vec<i64> = vec!["@ + comma_list(i64_literals(ints_or_empty(c.nodes_nodeids)))),
{
    assert(int_array_text("];\n    "@, "let node_ids: Vec<i64> = vec!["@, c.nodes_nodeids) =~= "];\n    "@ + ("let node_ids: Vec<i64> = vec!["@ + comma_list(i64_literals(ints_or_empty(c.nodes_nodeids)))) + Seq::<char>::empty());
    lemma_contains_within("];\n    "@, "let node_ids: Vec<i64> = vec!["@ + comma_list(i64_literals(ints_or_empty(c.nodes_nodeids))), Seq::<char>::empty());
    lemma_contains_right(int_array_text("{\n    "@, "let tree_ids: Vec<i64> = vec!["@, c.nodes_treeids), int_array_text("];\n    "@, "let node_ids: Vec<i64> = vec!["@, c.nodes_nodeids), "let node_ids: Vec<i64> = vec!["@ + comma_list(i64_literals(ints_or_empty(c.nodes_nodeids))));
    lemma_contains_left(int_array_text("{\n    "@, "let tree_ids: Vec<i64> = vec!["@, c.nodes_treeids) + int_array_text("];\n    "@, "let node_ids: Vec<i64> = vec!["@, c.nodes_nodeids), int_array_text("];\n    "@, "let feature_ids: Vec<i64> = vec!["@, c.nodes_featureids), "let node_ids: Vec<i64> = vec!["@ + comma_list(i64_literals(ints_or_empty(c.nodes_nodeids))));
    lemma_contains_left(int_array_text("{\n    "@, "let tree_ids: Vec<i64> = vec!["@, c.nodes_treeids) + int_array_text("];\n    "@, "let node_ids: Vec<i64> = vec!["@, c.nodes_nodeids) + int_array_text("];\n    "@, "let feature_ids: Vec<i64> = vec!["@, c.nodes_featureids), lit_array_text("];\n    "@, "let modes: Vec<&str> = vec!["@, lits), "let node_ids: Vec<i64> = vec!["@ + comma_list(i64_literals(ints_or_empty(c.nodes_nodeids))));
    lemma_contains_left(int_array_text("{\n    "@, "let tree_ids: Vec<i64> = vec!["@, c.nodes_treeids) + int_array_text("];\n    "@, "let node_ids: Vec<i64> = vec!["@, c.nodes_nodeids) + int_array_text("];\n    "@, "let feature_ids: Vec<i64> = vec!["@, c.nodes_featureids) + lit_array_text("];\n    "@, "let modes: Vec<&str> = vec!["@, lits), float_array_text("];\n    "@, "let split_values: Vec<f32> = vec!["@, c.nodes_values), "let node_ids: Vec<i64> = vec!["@ + comma_list(i64_literals(ints_or_empty(c.nodes_nodeids))));
    lemma_contains_left(int_array_text("{\n    "@, "let tree_ids: Vec<i64> = vec!["@, c.nodes_treeids) + int_array_text("];\n    "@, "let node_ids: Vec<i64> = vec!["@, c.nodes_nodeids) + int_array_text("];\n    "@, "let feature_ids: Vec<i64> = vec!["@, c.nodes_featureids) + lit_array_text("];\n    "@, "let modes: Vec<&str> = vec!["@, lits) + float_array_text("];\n    "@, "let split_values: Vec<f32> = vec!["@, c.nodes_values), int_array_text("];\n    "@, "let true_node_ids: Vec<i64> = vec!["@, c.nodes_truenodeids), "let node_ids: Vec<i64> = vec!["@ + comma_list(i64_literals(ints_or_empty(c.nodes_nodeids))));
    lemma_contains_left(int_array_text("{\n    "@, "let tree_ids: Vec<i64> = vec!["@, c.nodes_treeids) + int_array_text("];\n    "@, "let node_ids: Vec<i64> = vec!["@, c.nodes_nodeids) + int_array_text("];\n    "@, "let feature_ids: Vec<i64> = vec!["@, c.nodes_featureids) + lit_array_text("];\n    "@, "let modes: Vec<&str> = vec!["@, lits) + float_array_text("];\n    "@, "let split_values: Vec<f32> = vec!["@, c.nodes_values) + int_array_text("];\n    "@, "let true_node_ids: Vec<i64> = vec!["@, c.nodes_truenodeids), int_array_text("];\n    "@, "let false_node_ids: Vec<i64> = vec!["@, c.nodes_falsenodeids), "let node_ids: Vec<i64> = vec!["@ + comma_list(i64_literals(ints_or_empty(c.nodes_nodeids))));
    lemma_contains_left(int_array_text("{\n    "@, "let tree_ids: Vec<i64> = vec!["@, c.nodes_treeids) + int_array_text("];\n    "@, "let node_ids: Vec<i64> = vec!["@, c.nodes_nodeids) + int_array_text("];\n    "@, "let feature_ids: Vec<i64> = vec!["@, c.nodes_featureids) + lit_array_text("];\n    "@, "let modes: Vec<&str> = vec!["@, lits) + float_array_text("];\n    "@, "let split_values: Vec<f32> = vec!["@, c.nodes_values) + int_array_text("];\n    "@, "let true_node_ids: Vec<i64> = vec!["@, c.nodes_truenodeids) + int_array_text("];\n    "@, "let false_node_ids: Vec<i64> = vec!["@, c.nodes_falsenodeids), int_array_text("];\n    "@, "let missing_tracks_true: Vec<i64> = vec!["@, c.nodes_missing_value_tracks_true), "let node_ids: Vec<i64> = vec!["@ + comma_list(i64_literals(ints_or_empty(c.nodes_nodeids))));
}

proof fn lemma_holds_array_feature_ids(c: TreeEnsembleClassifierConfigView, lits: Seq<Seq<char>>)
    ensures
        contains(tree_nodes_text(c, lits), "let feature_ids: Vec<i64> = vec!["@ + comma_list(i64_literals(ints_or_empty(c.nodes_featureids)))),
{
    assert(int_array_text("];\n    "@, "let feature_ids: Vec<i64> = vec!["@, c.nodes_featureids) =~= "];\n    "@ + ("let feature_ids: Vec<i64> = vec!["@ + comma_list(i64_literals(ints_or_empty(c.nodes_featureids)))) + Seq::<char>::empty());
    lemma_contains_within("];\n    "@, "let feature_ids: Vec<i64> = vec!["@ + comma_list(i64_literals(ints_or_empty(c.nodes_featureids))), Seq::<char>::empty());
    lemma_contains_right(int_array_text("{\n    "@, "let tree_ids: Vec<i64> = vec!["@, c.nodes_treeids) + int_array_text("];\n    "@, "let node_ids: Vec<i64> = vec!["@, c.nodes_nodeids), int_array_text("];\n    "@, "let feature_ids: Vec<i64> = vec!["@, c.nodes_featureids), "let feature_ids: Vec<i64> = vec!["@ + comma_list(i64_literals(ints_or_empty(c.nodes_featureids))));
    lemma_contains_left(int_array_text("{\n    "@, "let tree_ids: Vec<i64> = vec!["@, c.nodes_treeids) + int_array_text("];\n    "@, "let node_ids: Vec<i64> = vec!["@, c.nodes_nodeids) + int_array_text("];\n    "@, "let feature_ids: Vec<i64> = vec!["@, c.nodes_featureids), lit_array_text("];\n    "@, "let modes: Vec<&str> = vec!["@, lits), "let feature_ids: Vec<i64> = vec!["@ + comma_list(i64_literals(ints_or_empty(c.nodes_featureids))));
    lemma_contains_left(int_array_text("{\n    "@, "let tree_ids: Vec<i64> = vec!["@, c.nodes_treeids) + int_array_text("];\n    "@, "let node_ids: Vec<i64> = vec!["@, c.nodes_nodeids) + int_array_text("];\n    "@, "let feature_ids: Vec<i64> = vec!["@, c.nodes_featureids) + lit_array_text("];\n    "@, "let modes: Vec<&str> = vec!["@, lits), float_array_text("];\n    "@, "let split_values: Vec<f32> = vec!["@, c.nodes_values), "let feature_ids: Vec<i64> = vec!["@ + comma_list(i64_literals(ints_or_empty(c.nodes_featureids))));
    lemma_contains_left(int_array_text("{\n    "@, "let tree_ids: Vec<i64> = vec!["@, c.nodes_treeids) + int_array_text("];\n    "@, "let node_ids: Vec<i64> = vec!["@, c.nodes_nodeids) + int_array_text("];\n    "@, "let feature_ids: Vec<i64> = vec!["@, c.nodes_featureids) + lit_array_text("];\n    "@, "let modes: Vec<&str> = vec!["@, lits) + float_array_text("];\n    "@, "let split_values: Vec<f32> = vec!["@, c.nodes_values), int_array_text("];\n    "@, "let true_node_ids: Vec<i64> = vec!["@, c.nodes_truenodeids), "let feature_ids: Vec<i64> = vec!["@ + comma_list(i64_literals(ints_or_empty(c.nodes_featureids))));
    lemma_contains_left(int_array_text("{\n    "@, "let tree_ids: Vec<i64> = vec!["@, c.nodes_treeids) + int_array_text("];\n    "@, "let node_ids: Vec<i64> = vec!["@, c.nodes_nodeids) + int_array_text("];\n    "@, "let feature_ids: Vec<i64> = vec!["@, c.nodes_featureids) + lit_array_text("];\n    "@, "let modes: Vec<&str> = vec!["@, lits) + float_array_text("];\n    "@, "let split_values: Vec<f32> = vec!["@, c.nodes_values) + int_array_text("];\n    "@, "let true_node_ids: Vec<i64> = vec!["@, c.nodes_truenodeids), int_array_text("];\n    "@, "let false_node_ids: Vec<i64> = vec!["@, c.nodes_falsenodeids), "let feature_ids: Vec<i64> = vec!["@ + comma_list(i64_literals(ints_or_empty(c.nodes_featureids))));
    lemma_contains_left(int_array_text("{\n    "@, "let tree_ids: Vec<i64> = vec!["@, c.nodes_treeids) + int_array_text("];\n    "@, "let node_ids: Vec<i64> = vec!["@, c.nodes_nodeids) + int_array_text("];\n    "@, "let feature_ids: Vec<i64> = vec!["@, c.nodes_featureids) + lit_array_text("];\n    "@, "let modes: Vec<&str> = vec!["@, lits) + float_array_text("];\n    "@, "let split_values: Vec<f32> = vec!["@, c.nodes_values) + int_array_text("];\n    "@, "let true_node_ids: Vec<i64> = vec!["@, c.nodes_truenodeids) + int_array_text("];\n    "@, "let false_node_ids: Vec<i64> = vec!["@, c.nodes_falsenodeids), int_array_text("];\n    "@, "let missing_tracks_true: Vec<i64> = vec!["@, c.nodes_missing_value_tracks_true), "let feature_ids: Vec<i64> = vec!["@ + comma_list(i64_literals(ints_or_empty(c.nodes_featureids))));
}

proof fn lemma_holds_array_modes(c: TreeEnsembleClassifierConfigView, lits: Seq<Seq<char>>)
    ensures
        contains(tree_nodes_text(c, lits), "let modes: Vec<&str> = vec!["@ + comma_list(lits)),
{
    assert(lit_array_text("];\n    "@, "let modes: Vec<&str> = vec!["@, lits) =~= "];\n    "@ + ("let modes: Vec<&str> = vec!["@ + comma_list(lits)) + Seq::<char>::empty());
    lemma_contains_within("];\n    "@, "let modes: Vec<&str> = vec!["@ + comma_list(lits), Seq::<char>::empty());
    lemma_contains_right(int_array_text("{\n    "@, "let tree_ids: Vec<i64> = vec!["@, c.nodes_treeids) + int_array_text("];\n    "@, "let node_ids: Vec<i64> = vec!["@, c.nodes_nodeids) + int_array_text("];\n    "@, "let feature_ids: Vec<i64> = vec!["@, c.nodes_featureids), lit_array_text("];\n    "@, "let modes: Vec<&str> = vec!["@, lits), "let modes: Vec<&str> = vec!["@ + comma_list(lits));
    lemma_contains_left(int_array_text("{\n    "@, "let tree_ids: Vec<i64> = vec!["@, c.nodes_treeids) + int_array_text("];\n    "@, "let node_ids: Vec<i64> = vec!["@, c.nodes_nodeids) + int_array_text("];\n    "@, "let feature_ids: Vec<i64> = vec!["@, c.nodes_featureids) + lit_array_text("];\n    "@, "let modes: Vec<&str> = vec!["@, lits), float_array_text("];\n    "@, "let split_values: Vec<f32> = vec!["@, c.nodes_values), "let modes: Vec<&str> = vec!["@ + comma_list(lits));
    lemma_contains_left(int_array_text("{\n    "@, "let tree_ids: Vec<i64> = vec!["@, c.nodes_treeids) + int_array_text("];\n    "@, "let node_ids: Vec<i64> = vec!["@, c.nodes_nodeids) + int_array_text("];\n    "@, "let feature_ids: Vec<i64> = vec!["@, c.nodes_featureids) + lit_array_text("];\n    "@, "let modes: Vec<&str> = vec!["@, lits) + float_array_text("];\n    "@, "let split_values: Vec<f32> = vec!["@, c.nodes_values), int_array_text("];\n    "@, "let true_node_ids: Vec<i64> = vec!["@, c.nodes_truenodeids), "let modes: Vec<&str> = vec!["@ + comma_list(lits));
    lemma_contains_left(int_array_text("{\n    "@, "let tree_ids: Vec<i64> = vec!["@, c.nodes_treeids) + int_array_text("];\n    "@, "let node_ids: Vec<i64> = vec!["@, c.nodes_nodeids) + int_array_text("];\n    "@, "let feature_ids: Vec<i64> = vec!["@, c.nodes_featureids) + lit_array_text("];\n    "@, "let modes: Vec<&str> = vec!["@, lits) + float_array_text("];\n    "@, "let split_values: Vec<f32> = vec!["@, c.nodes_values) + int_array_text("];\n    "@, "let true_node_ids: Vec<i64> = vec!["@, c.nodes_truenodeids), int_array_text("];\n    "@, "let false_node_ids: Vec<i64> = vec!["@, c.nodes_falsenodeids), "let modes: Vec<&str> = vec!["@ + comma_list(lits));
    lemma_contains_left(int_array_text("{\n    "@, "let tree_ids: Vec<i64> = vec!["@, c.nodes_treeids) + int_array_text("];\n    "@, "let node_ids: Vec<i64> = vec!["@, c.nodes_nodeids) + int_array_text("];\n    "@, "let feature_ids: Vec<i64> = vec!["@, c.nodes_featureids) + lit_array_text("];\n    "@, "let modes: Vec<&str> = vec!["@, lits) + float_array_text("];\n    "@, "let split_values: Vec<f32> = vec!["@, c.nodes_values) + int_array_text("];\n    "@, "let true_node_ids: Vec<i64> = vec!["@, c.nodes_truenodeids) + int_array_text("];\n    "@, "let false_node_ids: Vec<i64> = vec!["@, c.nodes_falsenodeids), int_array_text("];\n    "@, "let missing_tracks_true: Vec<i64> = vec!["@, c.nodes_missing_value_tracks_true), "let modes: Vec<&str> = vec!["@ + comma_list(lits));
}

proof fn lemma_holds_array_split_values(c: TreeEnsembleClassifierConfigView, lits: Seq<Seq<char>>)
    ensures
        contains(tree_nodes_text(c, lits), "let split_values: Vec<f32> = vec!["@ + comma_list(f32_literals(floats_or_empty(c.nodes_values)))),
{
    assert(float_array_text("];\n    "@, "let split_values: Vec<f32> = vec!["@, c.nodes_values) =~= "];\n    "@ + ("let split_values: Vec<f32> = vec!["@ + comma_list(f32_literals(floats_or_empty(c.nodes_values)))) + Seq::<char>::empty());
    lemma_contains_within("];\n    "@, "let split_values: Vec<f32> = vec!["@ + comma_list(f32_literals(floats_or_empty(c.nodes_values))), Seq::<char>::empty());
    lemma_contains_right(int_array_text("{\n    "@, "let tree_ids: Vec<i64> = vec!["@, c.nodes_treeids) + int_array_text("];\n    "@, "let node_ids: Vec<i64> = vec!["@, c.nodes_nodeids) + int_array_text("];\n    "@, "let feature_ids: Vec<i64> = vec!["@, c.nodes_featureids) + lit_array_text("];\n    "@, "let modes: Vec<&str> = vec!["@, lits), float_array_text("];\n    "@, "let split_values: Vec<f32> = vec!["@, c.nodes_values), "let split_values: Vec<f32> = vec!["@ + comma_list(f32_literals(floats_or_empty(c.nodes_values))));
    lemma_contains_left(int_array_text("{\n    "@, "let tree_ids: Vec<i64> = vec!["@, c.nodes_treeids) + int_array_text("];\n    "@, "let node_ids: Vec<i64> = vec!["@, c.nodes_nodeids) + int_array_text("];\n    "@, "let feature_ids: Vec<i64> = vec!["@, c.nodes_featureids) + lit_array_text("];\n    "@, "let modes: Vec<&str> = vec!["@, lits) + float_array_text("];\n    "@, "let split_values: Vec<f32> = vec!["@, c.nodes_values), int_array_text("];\n    "@, "let true_node_ids: Vec<i64> = vec!["@, c.nodes_truenodeids), "let split_values: Vec<f32> = vec!["@ + comma_list(f32_literals(floats_or_empty(c.nodes_values))));
    lemma_contains_left(int_array_text("{\n    "@, "let tree_ids: Vec<i64> = vec!["@, c.nodes_treeids) + int_array_text("];\n    "@, "let node_ids: Vec<i64> = vec!["@, c.nodes_nodeids) + int_array_text("];\n    "@, "let feature_ids: Vec<i64> = vec!["@, c.nodes_featureids) + lit_array_text("];\n    "@, "let modes: Vec<&str> = vec!["@, lits) + float_array_text("];\n    "@, "let split_values: Vec<f32> = vec!["@, c.nodes_values) + int_array_text("];\n    "@, "let true_node_ids: Vec<i64> = vec!["@, c.nodes_truenodeids), int_array_text("];\n    "@, "let false_node_ids: Vec<i64> = vec!["@, c.nodes_falsenodeids), "let split_values: Vec<f32> = vec!["@ + comma_list(f32_literals(floats_or_empty(c.nodes_values))));
    lemma_contains_left(int_array_text("{\n    "@, "let tree_ids: Vec<i64> = vec!["@, c.nodes_treeids) + int_array_text("];\n    "@, "let node_ids: Vec<i64> = vec!["@, c.nodes_nodeids) + int_array_text("];\n    "@, "let feature_ids: Vec<i64> = vec!["@, c.nodes_featureids) + lit_array_text("];\n    "@, "let modes: Vec<&str> = vec!["@, lits) + float_array_text("];\n    "@, "let split_values: Vec<f32> = vec!["@, c.nodes_values) + int_array_text("];\n    "@, "let true_node_ids: Vec<i64> = vec!["@, c.nodes_truenodeids) + int_array_text("];\n    "@, "let false_node_ids: Vec<i64> = vec!["@, c.nodes_falsenodeids), int_array_text("];\n    "@, "let missing_tracks_true: Vec<i64> = vec!["@, c.nodes_missing_value_tracks_true), "let split_values: Vec<f32> = vec!["@ + comma_list(f32_literals(floats_or_empty(c.nodes_values))));
}

proof fn lemma_holds_array_true_node_ids(c: TreeEnsembleClassifierConfigView, lits: Seq<Seq<char>>)
    ensures
        contains(tree_nodes_text(c, lits), "let true_node_ids: Vec<i64> = vec!["@ + comma_list(i64_literals(ints_or_empty(c.nodes_truenodeids)))),
{
    assert(int_array_text("];\n    "@, "let true_node_ids: Vec<i64> = vec!["@, c.nodes_truenodeids) =~= "];\n    "@ + ("let true_node_ids: Vec<i64> = vec!["@ + comma_list(i64_literals(ints_or_empty(c.nodes_truenodeids)))) + Seq::<char>::empty());
    lemma_contains_within("];\n    "@, "let true_node_ids: Vec<i64> = vec!["@ + comma_list(i64_literals(ints_or_empty(c.nodes_truenodeids))), Seq::<char>::empty());
    lemma_contains_right(int_array_text("{\n    "@, "let tree_ids: Vec<i64> = vec!["@, c.nodes_treeids) + int_array_text("];\n    "@, "let node_ids: Vec<i64> = vec!["@, c.nodes_nodeids) + int_array_text("];\n    "@, "let feature_ids: Vec<i64> = vec!["@, c.nodes_featureids) + lit_array_text("];\n    "@, "let modes: Vec<&str> = vec!["@, lits) + float_array_text("];\n    "@, "let split_values: Vec<f32> = vec!["@, c.nodes_values), int_array_text("];\n    "@, "let true_node_ids: Vec<i64> = vec!["@, c.nodes_truenodeids), "let true_node_ids: Vec<i64> = vec!["@ + comma_list(i64_literals(ints_or_empty(c.nodes_truenodeids))));
    lemma_contains_left(int_array_text("{\n    "@, "let tree_ids: Vec<i64> = vec!["@, c.nodes_treeids) + int_array_text("];\n    "@, "let node_ids: Vec<i64> = vec!["@, c.nodes_nodeids) + int_array_text("];\n    "@, "let feature_ids: Vec<i64> = vec!["@, c.nodes_featureids) + lit_array_text("];\n    "@, "let modes: Vec<&str> = vec!["@, lits) + float_array_text("];\n    "@, "let split_values: Vec<f32> = vec!["@, c.nodes_values) + int_array_text("];\n    "@, "let true_node_ids: Vec<i64> = vec!["@, c.nodes_truenodeids), int_array_text("];\n    "@, "let false_node_ids: Vec<i64> = vec!["@, c.nodes_falsenodeids), "let true_node_ids: Vec<i64> = vec!["@ + comma_list(i64_literals(ints_or_empty(c.nodes_truenodeids))));
    lemma_contains_left(int_array_text("{\n    "@, "let tree_ids: Vec<i64> = vec!["@, c.nodes_treeids) + int_array_text("];\n    "@, "let node_ids: Vec<i64> = vec!["@, c.nodes_nodeids) + int_array_text("];\n    "@, "let feature_ids: Vec<i64> = vec!["@, c.nodes_featureids) + lit_array_text("];\n    "@, "let modes: Vec<&str> = vec!["@, lits) + float_array_text("];\n    "@, "let split_values: Vec<f32> = vec!["@, c.nodes_values) + int_array_text("];\n    "@, "let true_node_ids: Vec<i64> = vec!["@, c.nodes_truenodeids) + int_array_text("];\n    "@, "let false_node_ids: Vec<i64> = vec!["@, c.nodes_falsenodeids), int_array_text("];\n    "@, "let missing_tracks_true: Vec<i64> = vec!["@, c.nodes_missing_value_tracks_true), "let true_node_ids: Vec<i64> = vec!["@ + comma_list(i64_literals(ints_or_empty(c.nodes_truenodeids))));
}

proof fn lemma_holds_array_false_node_ids(c: TreeEnsembleClassifierConfigView, lits: Seq<Seq<char>>)
    ensures
        contains(tree_nodes_text(c, lits), "let false_node_ids: Vec<i64> = vec!["@ + comma_list(i64_literals(ints_or_empty(c.nodes_falsenodeids)))),
{
    assert(int_array_text("];\n    "@, "let false_node_ids: Vec<i64> = vec!["@, c.nodes_falsenodeids) =~= "];\n    "@ + ("let false_node_ids: Vec<i64> = vec!["@ + comma_list(i64_literals(ints_or_empty(c.nodes_falsenodeids)))) + Seq::<char>::empty());
    lemma_contains_within("];\n    "@, "let false_node_ids: Vec<i64> = vec!["@ + comma_list(i64_literals(ints_or_empty(c.nodes_falsenodeids))), Seq::<char>::empty());
    lemma_contains_right(int_array_text("{\n    "@, "let tree_ids: Vec<i64> = vec!["@, c.nodes_treeids) + int_array_text("];\n    "@, "let node_ids: Vec<i64> = vec!["@, c.nodes_nodeids) + int_array_text("];\n    "@, "let feature_ids: Vec<i64> = vec!["@, c.nodes_featureids) + lit_array_text("];\n    "@, "let modes: Vec<&str> = vec!["@, lits) + float_array_text("];\n    "@, "let split_values: Vec<f32> = vec!["@, c.nodes_values) + int_array_text("];\n    "@, "let true_node_ids: Vec<i64> = vec!["@, c.nodes_truenodeids), int_array_text("];\n    "@, "let false_node_ids: Vec<i64> = vec!["@, c.nodes_falsenodeids), "let false_node_ids: Vec<i64> = vec!["@ + comma_list(i64_literals(ints_or_empty(c.nodes_falsenodeids))));
    lemma_contains_left(int_array_text("{\n    "@, "let tree_ids: Vec<i64> = vec!["@, c.nodes_treeids) + int_array_text("];\n    "@, "let node_ids: Vec<i64> = vec!["@, c.nodes_nodeids) + int_array_text("];\n    "@, "let feature_ids: Vec<i64> = vec!["@, c.nodes_featureids) + lit_array_text("];\n    "@, "let modes: Vec<&str> = vec!["@, lits) + float_array_text("];\n    "@, "let split_values: Vec<f32> = vec!["@, c.nodes_values) + int_array_text("];\n    "@, "let true_node_ids: Vec<i64> = vec!["@, c.nodes_truenodeids) + int_array_text("];\n    "@, "let false_node_ids: Vec<i64> = vec!["@, c.nodes_falsenodeids), int_array_text("];\n    "@, "let missing_tracks_true: Vec<i64> = vec!["@, c.nodes_missing_value_tracks_true), "let false_node_ids: Vec<i64> = vec!["@ + comma_list(i64_literals(ints_or_empty(c.nodes_falsenodeids))));
}

proof fn lemma_holds_array_missing_tracks_true(c: TreeEnsembleClassifierConfigView, lits: Seq<Seq<char>>)
    ensures
        contains(tree_nodes_text(c, lits), "let missing_tracks_true: Vec<i64> = vec!["@ + comma_list(i64_literals(ints_or_empty(c.nodes_missing_value_tracks_true)))),
{
    assert(int_array_text("];\n    "@, "let missing_tracks_true: Vec<i64> = vec!["@, c.nodes_missing_value_tracks_true) =~= "];\n    "@ + ("let missing_tracks_true: Vec<i64> = vec!["@ + comma_list(i64_literals(ints_or_empty(c.nodes_missing_value_tracks_true)))) + Seq::<char>::empty());
    lemma_contains_within("];\n    "@, "let missing_tracks_true: Vec<i64> = vec!["@ + comma_list(i64_literals(ints_or_empty(c.nodes_missing_value_tracks_true))), Seq::<char>::empty());
    lemma_contains_right(int_array_text("{\n    "@, "let tree_ids: Vec<i64> = vec!["@, c.nodes_treeids) + int_array_text("];\n    "@, "let node_ids: Vec<i64> = vec!["@, c.nodes_nodeids) + int_array_text("];\n    "@, "let feature_ids: Vec<i64> = vec!["@, c.nodes_featureids) + lit_array_text("];\n    "@, "let modes: Vec<&str> = vec!["@, lits) + float_array_text("];\n    "@, "let split_values: Vec<f32> = vec!["@, c.nodes_values) + int_array_text("];\n    "@, "let true_node_ids: Vec<i64> = vec!["@, c.nodes_truenodeids) + int_array_text("];\n    "@, "let false_node_ids: Vec<i64> = vec!["@, c.nodes_falsenodeids), int_array_text("];\n    "@, "let missing_tracks_true: Vec<i64> = vec!["@, c.nodes_missing_value_tracks_true), "let missing_tracks_true: Vec<i64> = vec!["@ + comma_list(i64_literals(ints_or_empty(c.nodes_missing_value_tracks_true))));
}

proof fn lemma_holds_array_class_tree_ids(c: TreeEnsembleClassifierConfigView, lits: Seq<Seq<char>>)
    ensures
        contains(tree_classes_text(c), "let class_tree_ids: Vec<i64> = vec!["@ + comma_list(i64_literals(ints_or_empty(c.class_treeids)))),
{
    assert(int_array_text("];\n    "@, "let class_tree_ids: Vec<i64> = vec!["@, c.class_treeids) =~= "];\n    "@ + ("let class_tree_ids: Vec<i64> = vec!["@ + comma_list(i64_literals(ints_or_empty(c.class_treeids)))) + Seq::<char>::empty());
    lemma_contains_within("];\n    "@, "let class_tree_ids: Vec<i64> = vec!["@ + comma_list(i64_literals(ints_or_empty(c.class_treeids))), Seq::<char>::empty());
    lemma_contains_left(int_array_text("];\n    "@, "let class_tree_ids: Vec<i64> = vec!["@, c.class_treeids), int_array_text("];\n    "@, "let class_node_ids: Vec<i64> = vec!["@, c.class_nodeids), "let class_tree_ids: Vec<i64> = vec!["@ + comma_list(i64_literals(ints_or_empty(c.class_treeids))));
    lemma_contains_left(int_array_text("];\n    "@, "let class_tree_ids: Vec<i64> = vec!["@, c.class_treeids) + int_array_text("];\n    "@, "let class_node_ids: Vec<i64> = vec!["@, c.class_nodeids), int_array_text("];\n    "@, "let class_ids: Vec<i64> = vec!["@, c.class_ids), "let class_tree_ids: Vec<i64> = vec!["@ + comma_list(i64_literals(ints_or_empty(c.class_treeids))));
    lemma_contains_left(int_array_text("];\n    "@, "let class_tree_ids: Vec<i64> = vec!["@, c.class_treeids) + int_array_text("];\n    "@, "let class_node_ids: Vec<i64> = vec!["@, c.class_nodeids) + int_array_text("];\n    "@, "let class_ids: Vec<i64> = vec!["@, c.class_ids), float_array_text("];\n    "@, "let class_weights: Vec<f32> = vec!["@, c.class_weights), "let class_tree_ids: Vec<i64> = vec!["@ + comma_list(i64_literals(ints_or_empty(c.class_treeids))));
    lemma_contains_left(int_array_text("];\n    "@, "let class_tree_ids: Vec<i64> = vec!["@, c.class_treeids) + int_array_text("];\n    "@, "let class_node_ids: Vec<i64> = vec!["@, c.class_nodeids) + int_array_text("];\n    "@, "let class_ids: Vec<i64> = vec!["@, c.class_ids) + float_array_text("];\n    "@, "let class_weights: Vec<f32> = vec!["@, c.class_weights), float_array_text("];\n    "@, "let base_values: Vec<f32> = vec!["@, c.base_values), "let class_tree_ids: Vec<i64> = vec!["@ + comma_list(i64_literals(ints_or_empty(c.class_treeids))));
}

proof fn lemma_holds_array_class_node_ids(c: TreeEnsembleClassifierConfigView, lits: Seq<Seq<char>>)
    ensures
        contains(tree_classes_text(c), "let class_node_ids: Vec<i64> = vec!["@ + comma_list(i64_literals(ints_or_empty(c.class_nodeids)))),
{
    assert(int_array_text("];\n    "@, "let class_node_ids: Vec<i64> = vec!["@, c.class_nodeids) =~= "];\n    "@ + ("let class_node_ids: Vec<i64> = vec!["@ + comma_list(i64_literals(ints_or_empty(c.class_nodeids)))) + Seq::<char>::empty());
    lemma_contains_within("];\n    "@, "let class_node_ids: Vec<i64> = vec!["@ + comma_list(i64_literals(ints_or_empty(c.class_nodeids))), Seq::<char>::empty());
    lemma_contains_right(int_array_text("];\n    "@, "let class_tree_ids: Vec<i64> = vec!["@, c.class_treeids), int_array_text("];\n    "@, "let class_node_ids: Vec<i64> = vec!["@, c.class_nodeids), "let class_node_ids: Vec<i64> = vec!["@ + comma_list(i64_literals(ints_or_empty(c.class_nodeids))));
    lemma_contains_left(int_array_text("];\n    "@, "let class_tree_ids: Vec<i64> = vec!["@, c.class_treeids) + int_array_text("];\n    "@, "let class_node_ids: Vec<i64> = vec!["@, c.class_nodeids), int_array_text("];\n    "@, "let class_ids: Vec<i64> = vec!["@, c.class_ids), "let class_node_ids: Vec<i64> = vec!["@ + comma_list(i64_literals(ints_or_empty(c.class_nodeids))));
    lemma_contains_left(int_array_text("];\n    "@, "let class_tree_ids: Vec<i64> = vec!["@, c.class_treeids) + int_array_text("];\n    "@, "let class_node_ids: Vec<i64> = vec!["@, c.class_nodeids) + int_array_text("];\n    "@, "let class_ids: Vec<i64> = vec!["@, c.class_ids), float_array_text("];\n    "@, "let class_weights: Vec<f32> = vec!["@, c.class_weights), "let class_node_ids: Vec<i64> = vec!["@ + comma_list(i64_literals(ints_or_empty(c.class_nodeids))));
    lemma_contains_left(int_array_text("];\n    "@, "let class_tree_ids: Vec<i64> = vec!["@, c.class_treeids) + int_array_text("];\n    "@, "let class_node_ids: Vec<i64> = vec!["@, c.class_nodeids) + int_array_text("];\n    "@, "let class_ids: Vec<i64> = vec!["@, c.class_ids) + float_array_text("];\n    "@, "let class_weights: Vec<f32> = vec!["@, c.class_weights), float_array_text("];\n    "@, "let base_values: Vec<f32> = vec!["@, c.base_values), "let class_node_ids: Vec<i64> = vec!["@ + comma_list(i64_literals(ints_or_empty(c.class_nodeids))));
}

proof fn lemma_holds_array_class_ids(c: TreeEnsembleClassifierConfigView, lits: Seq<Seq<char>>)
    ensures
        contains(tree_classes_text(c), "let class_ids: Vec<i64> = vec!["@ + comma_list(i64_literals(ints_or_empty(c.class_ids)))),
{
    assert(int_array_text("];\n    "@, "let class_ids: Vec<i64> = vec!["@, c.class_ids) =~= "];\n    "@ + ("let class_ids: Vec<i64> = vec!["@ + comma_list(i64_literals(ints_or_empty(c.class_ids)))) + Seq::<char>::empty());
    lemma_contains_within("];\n    "@, "let class_ids: Vec<i64> = vec!["@ + comma_list(i64_literals(ints_or_empty(c.class_ids))), Seq::<char>::empty());
    lemma_contains_right(int_array_text("];\n    "@, "let class_tree_ids: Vec<i64> = vec!["@, c.class_treeids) + int_array_text("];\n    "@, "let class_node_ids: Vec<i64> = vec!["@, c.class_nodeids), int_array_text("];\n    "@, "let class_ids: Vec<i64> = vec!["@, c.class_ids), "let class_ids: Vec<i64> = vec!["@ + comma_list(i64_literals(ints_or_empty(c.class_ids))));
    lemma_contains_left(int_array_text("];\n    "@, "let class_tree_ids: Vec<i64> = vec!["@, c.class_treeids) + int_array_text("];\n    "@, "let class_node_ids: Vec<i64> = vec!["@, c.class_nodeids) + int_array_text("];\n    "@, "let class_ids: Vec<i64> = vec!["@, c.class_ids), float_array_text("];\n    "@, "let class_weights: Vec<f32> = vec!["@, c.class_weights), "let class_ids: Vec<i64> = vec!["@ + comma_list(i64_literals(ints_or_empty(c.class_ids))));
    lemma_contains_left(int_array_text("];\n    "@, "let class_tree_ids: Vec<i64> = vec!["@, c.class_treeids) + int_array_text("];\n    "@, "let class_node_ids: Vec<i64> = vec!["@, c.class_nodeids) + int_array_text("];\n    "@, "let class_ids: Vec<i64> = vec!["@, c.class_ids) + float_array_text("];\n    "@, "let class_weights: Vec<f32> = vec!["@, c.class_weights), float_array_text("];\n    "@, "let base_values: Vec<f32> = vec!["@, c.base_values), "let class_ids: Vec<i64> = vec!["@ + comma_list(i64_literals(ints_or_empty(c.class_ids))));
}

proof fn lemma_holds_array_class_weights(c: TreeEnsembleClassifierConfigView, lits: Seq<Seq<char>>)
    ensures
        contains(tree_classes_text(c), "let class_weights: Vec<f32> = vec!["@ + comma_list(f32_literals(floats_or_empty(c.class_weights)))),
{
    assert(float_array_text("];\n    "@, "let class_weights: Vec<f32> = vec!["@, c.class_weights) =~= "];\n    "@ + ("let class_weights: Vec<f32> = vec!["@ + comma_list(f32_literals(floats_or_empty(c.class_weights)))) + Seq::<char>::empty());
    lemma_contains_within("];\n    "@, "let class_weights: Vec<f32> = vec!["@ + comma_list(f32_literals(floats_or_empty(c.class_weights))), Seq::<char>::empty());
    lemma_contains_right(int_array_text("];\n    "@, "let class_tree_ids: Vec<i64> = vec!["@, c.class_treeids) + int_array_text("];\n    "@, "let class_node_ids: Vec<i64> = vec!["@, c.class_nodeids) + int_array_text("];\n    "@, "let class_ids: Vec<i64> = vec!["@, c.class_ids), float_array_text("];\n    "@, "let class_weights: Vec<f32> = vec!["@, c.class_weights), "let class_weights: Vec<f32> = vec!["@ + comma_list(f32_literals(floats_or_empty(c.class_weights))));
    lemma_contains_left(int_array_text("];\n    "@, "let class_tree_ids: Vec<i64> = vec!["@, c.class_treeids) + int_array_text("];\n    "@, "let class_node_ids: Vec<i64> = vec!["@, c.class_nodeids) + int_array_text("];\n    "@, "let class_ids: Vec<i64> = vec!["@, c.class_ids) + float_array_text("];\n    "@, "let class_weights: Vec<f32> = vec!["@, c.class_weights), float_array_text("];\n    "@, "let base_values: Vec<f32> = vec!["@, c.base_values), "let class_weights: Vec<f32> = vec!["@ + comma_list(f32_literals(floats_or_empty(c.class_weights))));
}

proof fn lemma_holds_array_base_values(c: TreeEnsembleClassifierConfigView, lits: Seq<Seq<char>>)
    ensures
        contains(tree_classes_text(c), "let base_values: Vec<f32> = vec!["@ + comma_list(f32_literals(floats_or_empty(c.base_values)))),
{
    assert(float_array_text("];\n    "@, "let base_values: Vec<f32> = vec!["@, c.base_values) =~= "];\n    "@ + ("let base_values: Vec<f32> = vec!["@ + comma_list(f32_literals(floats_or_empty(c.base_values)))) + Seq::<char>::empty());
    lemma_contains_within("];\n    "@, "let base_values: Vec<f32> = vec!["@ + comma_list(f32_literals(floats_or_empty(c.base_values))), Seq::<char>::empty());
    lemma_contains_right(int_array_text("];\n    "@, "let class_tree_ids: Vec<i64> = vec!["@, c.class_treeids) + int_array_text("];\n    "@, "let class_node_ids: Vec<i64> = vec!["@, c.class_nodeids) + int_array_text("];\n    "@, "let class_ids: Vec<i64> = vec!["@, c.class_ids) + float_array_text("];\n    "@, "let class_weights: Vec<f32> = vec!["@, c.class_weights), float_array_text("];\n    "@, "let base_values: Vec<f32> = vec!["@, c.base_values), "let base_values: Vec<f32> = vec!["@ + comma_list(f32_literals(floats_or_empty(c.base_values))));
}

proof fn lemma_holds_class_labels(c: TreeEnsembleClassifierConfigView, lits: Seq<Seq<char>>)
    ensures
        contains(tree_labels_text(c), "let class_labels: Vec<i64> = vec!["@ + comma_list(i64_literals(class_label_values(c)))),
{
    assert(tree_labels_text(c) =~= ("];\n    "@) + ("let class_labels: Vec<i64> = vec!["@ + comma_list(i64_literals(class_label_values(c)))) + ("];\n    "@ + "let num_classes = "@ + usize_literal(class_count(c))));
    lemma_contains_within("];\n    "@, "let class_labels: Vec<i64> = vec!["@ + comma_list(i64_literals(class_label_values(c))), "];\n    "@ + "let num_classes = "@ + usize_literal(class_count(c)));
}

proof fn lemma_holds_num_classes(c: TreeEnsembleClassifierConfigView, lits: Seq<Seq<char>>)
    ensures
        contains(tree_labels_text(c), "let num_classes = "@ + usize_literal(class_count(c))),
{
    assert(tree_labels_text(c) =~= ("];\n    "@ + "let class_labels: Vec<i64> = vec!["@ + comma_list(i64_literals(class_label_values(c))) + "];\n    "@) + ("let num_classes = "@ + usize_literal(class_count(c))) + (Seq::<char>::empty()));
    lemma_contains_within("];\n    "@ + "let class_labels: Vec<i64> = vec!["@ + comma_list(i64_literals(class_label_values(c))) + "];\n    "@, "let num_classes = "@ + usize_literal(class_count(c)), Seq::<char>::empty());
}

/// The code holds every attribute of the trees, the leaf weights and the base
/// values as an array in the attribute's own order (an absent attribute as an
/// empty array), the node modes as the given literals, the class labels (0 and
/// 1 without them), and as many classes as labels.
pub proof fn lemma_tree_arrays_hold_the_attributes(
    input: Seq<char>,
    labels: Seq<char>,
    probs: Seq<char>,
    c: TreeEnsembleClassifierConfigView,
    lits: Seq<Seq<char>>,
    t: Seq<char>,
)
    requires
        tree_ready(c),
    ensures
        contains(tree_forward_text(input, labels, probs, c, lits, t), "let tree_ids: Vec<i64> = vec!["@ + comma_list(i64_literals(ints_or_empty(c.nodes_treeids)))),
        contains(tree_forward_text(input, labels, probs, c, lits, t), "let node_ids: Vec<i64> = vec!["@ + comma_list(i64_literals(ints_or_empty(c.nodes_nodeids)))),
        contains(tree_forward_text(input, labels, probs, c, lits, t), "let feature_ids: Vec<i64> = vec!["@ + comma_list(i64_literals(ints_or_empty(c.nodes_featureids)))),
        contains(tree_forward_text(input, labels, probs, c, lits, t), "let modes: Vec<&str> = vec!["@ + comma_list(lits)),
        contains(tree_forward_text(input, labels, probs, c, lits, t), "let split_values: Vec<f32> = vec!["@ + comma_list(f32_literals(floats_or_empty(c.nodes_values)))),
        contains(tree_forward_text(input, labels, probs, c, lits, t), "let true_node_ids: Vec<i64> = vec!["@ + comma_list(i64_literals(ints_or_empty(c.nodes_truenodeids)))),
        contains(tree_forward_text(input, labels, probs, c, lits, t), "let false_node_ids: Vec<i64> = vec!["@ + comma_list(i64_literals(ints_or_empty(c.nodes_falsenodeids)))),
        contains(tree_forward_text(input, labels, probs, c, lits, t), "let missing_tracks_true: Vec<i64> = vec!["@ + comma_list(i64_literals(ints_or_empty(c.nodes_missing_value_tracks_true)))),
        contains(tree_forward_text(input, labels, probs, c, lits, t), "let class_tree_ids: Vec<i64> = vec!["@ + comma_list(i64_literals(ints_or_empty(c.class_treeids)))),
        contains(tree_forward_text(input, labels, probs, c, lits, t), "let class_node_ids: Vec<i64> = vec!["@ + comma_list(i64_literals(ints_or_empty(c.class_nodeids)))),
        contains(tree_forward_text(input, labels, probs, c, lits, t), "let class_ids: Vec<i64> = vec!["@ + comma_list(i64_literals(ints_or_empty(c.class_ids)))),
        contains(tree_forward_text(input, labels, probs, c, lits, t), "let class_weights: Vec<f32> = vec!["@ + comma_list(f32_literals(floats_or_empty(c.class_weights)))),
        contains(tree_forward_text(input, labels, probs, c, lits, t), "let base_values: Vec<f32> = vec!["@ + comma_list(f32_literals(floats_or_empty(c.base_values)))),
        contains(tree_forward_text(input, labels, probs, c, lits, t), "let class_labels: Vec<i64> = vec!["@ + comma_list(i64_literals(class_label_values(c)))),
        contains(tree_forward_text(input, labels, probs, c, lits, t), "let num_classes = "@ + usize_literal(class_count(c))),
{
    lemma_holds_array_tree_ids(c, lits);
    lemma_nodes_part_in_forward(input, labels, probs, c, lits, t, "let tree_ids: Vec<i64> = vec!["@ + comma_list(i64_literals(ints_or_empty(c.nodes_treeids))));
    lemma_holds_array_node_ids(c, lits);
    lemma_nodes_part_in_forward(input, labels, probs, c, lits, t, "let node_ids: Vec<i64> = vec!["@ + comma_list(i64_literals(ints_or_empty(c.nodes_nodeids))));
    lemma_holds_array_feature_ids(c, lits);
    lemma_nodes_part_in_forward(input, labels, probs, c, lits, t, "let feature_ids: Vec<i64> = vec!["@ + comma_list(i64_literals(ints_or_empty(c.nodes_featureids))));
    lemma_holds_array_modes(c, lits);
    lemma_nodes_part_in_forward(input, labels, probs, c, lits, t, "let modes: Vec<&str> = vec!["@ + comma_list(lits));
    lemma_holds_array_split_values(c, lits);
    lemma_nodes_part_in_forward(input, labels, probs, c, lits, t, "let split_values: Vec<f32> = vec!["@ + comma_list(f32_literals(floats_or_empty(c.nodes_values))));
    lemma_holds_array_true_node_ids(c, lits);
    lemma_nodes_part_in_forward(input, labels, probs, c, lits, t, "let true_node_ids: Vec<i64> = vec!["@ + comma_list(i64_literals(ints_or_empty(c.nodes_truenodeids))));
    lemma_holds_array_false_node_ids(c, lits);
    lemma_nodes_part_in_forward(input, labels, probs, c, lits, t, "let false_node_ids: Vec<i64> = vec!["@ + comma_list(i64_literals(ints_or_empty(c.nodes_falsenodeids))));
    lemma_holds_array_missing_tracks_true(c, lits);
    lemma_nodes_part_in_forward(input, labels, probs, c, lits, t, "let missing_tracks_true: Vec<i64> = vec!["@ + comma_list(i64_literals(ints_or_empty(c.nodes_missing_value_tracks_true))));
    lemma_holds_array_class_tree_ids(c, lits);
    lemma_classes_part_in_forward(input, labels, probs, c, lits, t, "let class_tree_ids: Vec<i64> = vec!["@ + comma_list(i64_literals(ints_or_empty(c.class_treeids))));
    lemma_holds_array_class_node_ids(c, lits);
    lemma_classes_part_in_forward(input, labels, probs, c, lits, t, "let class_node_ids: Vec<i64> = vec!["@ + comma_list(i64_literals(ints_or_empty(c.class_nodeids))));
    lemma_holds_array_class_ids(c, lits);
    lemma_classes_part_in_forward(input, labels, probs, c, lits, t, "let class_ids: Vec<i64> = vec!["@ + comma_list(i64_literals(ints_or_empty(c.class_ids))));
    lemma_holds_array_class_weights(c, lits);
    lemma_classes_part_in_forward(input, labels, probs, c, lits, t, "let class_weights: Vec<f32> = vec!["@ + comma_list(f32_literals(floats_or_empty(c.class_weights))));
    lemma_holds_array_base_values(c, lits);
    lemma_classes_part_in_forward(input, labels, probs, c, lits, t, "let base_values: Vec<f32> = vec!["@ + comma_list(f32_literals(floats_or_empty(c.base_values))));
    lemma_holds_class_labels(c, lits);
    lemma_labels_part_in_forward(input, labels, probs, c, lits, t, "let class_labels: Vec<i64> = vec!["@ + comma_list(i64_literals(class_label_values(c))));
    lemma_holds_num_classes(c, lits);
    lemma_labels_part_in_forward(input, labels, probs, c, lits, t, "let num_classes = "@ + usize_literal(class_count(c)));
}

proof fn lemma_arrays_part_in_forward(
    input: Seq<char>,
    labels: Seq<char>,
    probs: Seq<char>,
    c: TreeEnsembleClassifierConfigView,
    lits: Seq<Seq<char>>,
    t: Seq<char>,
    part: Seq<char>,
)
    requires
        tree_ready(c),
        contains(tree_arrays_text(c, lits), part),
    ensures
        contains(tree_forward_text(input, labels, probs, c, lits, t), part),
{
    let head = "let ("@ + labels + ", "@ + probs + ") = "@;
    let tail = tree_eval_text(input) + t + tree_transform_text() + tree_argmax_text() + tree_outputs_text(labels, probs) + ";"@;
    assert(tree_forward_text(input, labels, probs, c, lits, t) =~= head + tree_arrays_text(c, lits) + tail);
    lemma_contains_around(head, tree_arrays_text(c, lits), tail, part);
}

proof fn lemma_nodes_part_in_forward(
    input: Seq<char>,
    labels: Seq<char>,
    probs: Seq<char>,
    c: TreeEnsembleClassifierConfigView,
    lits: Seq<Seq<char>>,
    t: Seq<char>,
    part: Seq<char>,
)
    requires
        tree_ready(c),
        contains(tree_nodes_text(c, lits), part),
    ensures
        contains(tree_forward_text(input, labels, probs, c, lits, t), part),
{
    lemma_contains_left(tree_nodes_text(c, lits), tree_classes_text(c), part);
    lemma_contains_left(tree_nodes_text(c, lits) + tree_classes_text(c), tree_labels_text(c), part);
    reveal(tree_arrays_text);
    lemma_arrays_part_in_forward(input, labels, probs, c, lits, t, part);
}

proof fn lemma_classes_part_in_forward(
    input: Seq<char>,
    labels: Seq<char>,
    probs: Seq<char>,
    c: TreeEnsembleClassifierConfigView,
    lits: Seq<Seq<char>>,
    t: Seq<char>,
    part: Seq<char>,
)
    requires
        tree_ready(c),
        contains(tree_classes_text(c), part),
    ensures
        contains(tree_forward_text(input, labels, probs, c, lits, t), part),
{
    lemma_contains_right(tree_nodes_text(c, lits), tree_classes_text(c), part);
    lemma_contains_left(tree_nodes_text(c, lits) + tree_classes_text(c), tree_labels_text(c), part);
    reveal(tree_arrays_text);
    lemma_arrays_part_in_forward(input, labels, probs, c, lits, t, part);
}

proof fn lemma_labels_part_in_forward(
    input: Seq<char>,
    labels: Seq<char>,
    probs: Seq<char>,
    c: TreeEnsembleClassifierConfigView,
    lits: Seq<Seq<char>>,
    t: Seq<char>,
    part: Seq<char>,
)
    requires
        tree_ready(c),
        contains(tree_labels_text(c), part),
    ensures
        contains(tree_forward_text(input, labels, probs, c, lits, t), part),
{
    lemma_contains_right(tree_nodes_text(c, lits) + tree_classes_text(c), tree_labels_text(c), part);
    reveal(tree_arrays_text);
    lemma_arrays_part_in_forward(input, labels, probs, c, lits, t, part);
}

proof fn lemma_outputs_part_in_forward(
    input: Seq<char>,
    labels: Seq<char>,
    probs: Seq<char>,
    c: TreeEnsembleClassifierConfigView,
    lits: Seq<Seq<char>>,
    t: Seq<char>,
    part: Seq<char>,
)
    requires
        tree_ready(c),
        contains(tree_outputs_text(labels, probs), part),
    ensures
        contains(tree_forward_text(input, labels, probs, c, lits, t), part),
{
    let head = "let ("@ + labels + ", "@ + probs + ") = "@ + tree_arrays_text(c, lits) + tree_eval_text(input) + t + tree_transform_text() + tree_argmax_text();
    assert(tree_forward_text(input, labels, probs, c, lits, t) =~= head + tree_outputs_text(labels, probs) + ";"@);
    lemma_contains_around(head, tree_outputs_text(labels, probs), ";"@, part);
}

/// The labels output holds the chosen label of each sample, as a rank-1
/// integer tensor, and the probabilities output the final scores, as a
/// [samples, classes] float tensor; the block returns the two.
pub proof fn lemma_tree_outputs_are_labels_and_scores(
    input: Seq<char>,
    labels: Seq<char>,
    probs: Seq<char>,
    c: TreeEnsembleClassifierConfigView,
    lits: Seq<Seq<char>>,
    t: Seq<char>,
)
    requires
        tree_ready(c),
    ensures
        contains(tree_forward_text(input, labels, probs, c, lits, t), "\n    let "@ + labels + " = Tensor::<B, 1, burn::tensor::Int>::from_data(\n        burn::tensor::TensorData::from(&labels[..]),\n        &*self.device\n    );\n    let probs_flat: Vec<f32> = all_scores.into_iter().flatten().collect();\n    let "@ + probs + " = Tensor::<B, 2>::from_data(\n        burn::tensor::TensorData::new(probs_flat, [batch_size, num_classes]),\n        &*self.device\n    );\n    ("@ + labels + ", "@ + probs + ")\n}"@),
{
    reveal(tree_outputs_text);
    lemma_contains_within(Seq::<char>::empty(), "\n    let "@ + labels + " = Tensor::<B, 1, burn::tensor::Int>::from_data(\n        burn::tensor::TensorData::from(&labels[..]),\n        &*self.device\n    );\n    let probs_flat: Vec<f32> = all_scores.into_iter().flatten().collect();\n    let "@ + probs + " = Tensor::<B, 2>::from_data(\n        burn::tensor::TensorData::new(probs_flat, [batch_size, num_classes]),\n        &*self.device\n    );\n    ("@ + labels + ", "@ + probs + ")\n}"@, Seq::<char>::empty());
    assert(Seq::<char>::empty() + ("\n    let "@ + labels + " = Tensor::<B, 1, burn::tensor::Int>::from_data(\n        burn::tensor::TensorData::from(&labels[..]),\n        &*self.device\n    );\n    let probs_flat: Vec<f32> = all_scores.into_iter().flatten().collect();\n    let "@ + probs + " = Tensor::<B, 2>::from_data(\n        burn::tensor::TensorData::new(probs_flat, [batch_size, num_classes]),\n        &*self.device\n    );\n    ("@ + labels + ", "@ + probs + ")\n}"@) + Seq::<char>::empty() =~= tree_outputs_text(labels, probs));
    lemma_outputs_part_in_forward(input, labels, probs, c, lits, t, "\n    let "@ + labels + " = Tensor::<B, 1, burn::tensor::Int>::from_data(\n        burn::tensor::TensorData::from(&labels[..]),\n        &*self.device\n    );\n    let probs_flat: Vec<f32> = all_scores.into_iter().flatten().collect();\n    let "@ + probs + " = Tensor::<B, 2>::from_data(\n        burn::tensor::TensorData::new(probs_flat, [batch_size, num_classes]),\n        &*self.device\n    );\n    ("@ + labels + ", "@ + probs + ")\n}"@);
}

/// When the configuration lacks the nodes, their modes or the leaf weights,
/// the labels are a single zero label and the probabilities a [1, 2] tensor of
/// zeros.
pub proof fn lemma_tree_incomplete_config_gives_zeros(
    input: Seq<char>,
    labels: Seq<char>,
    probs: Seq<char>,
    c: TreeEnsembleClassifierConfigView,
    lits: Seq<Seq<char>>,
    t: Seq<char>,
)
    requires
        !tree_ready(c),
    ensures
        tree_forward_text(input, labels, probs, c, lits, t) == "let ("@ + labels + ", "@ + probs + ") = "@ + ("{\n    let "@ + labels + " = Tensor::<B, 1, burn::tensor::Int>::zeros([1], &*self.device);\n    let "@ + probs + " = Tensor::<B, 2>::zeros([1, 2], &*self.device);\n    ("@ + labels + ", "@ + probs + ")\n}"@) + ";"@,
{
}

impl TreeEnsembleClassifierNode {
    /// The inputs of the node.
    pub fn inputs(&self) -> (r: &[Argument])
        ensures
            r@ == self.inputs@,
    {
        self.inputs.as_slice()
    }

    /// The outputs of the node.
    pub fn outputs(&self) -> (r: &[Argument])
        ensures
            r@ == self.outputs@,
    {
        self.outputs.as_slice()
    }

    /// The code of the forward step, given the literals of the node modes and
    /// that of the post transform.
    pub fn forward_with_literals(&self, mode_literals: &Vec<String>, transform_literal: &str) -> (r: String)
        requires
            self.inputs.len() >= 1,
            self.outputs.len() >= 2,
        ensures
            r@ == tree_forward_text(
                self.inputs@[0].name@,
                self.outputs@[0].name@,
                self.outputs@[1].name@,
                self.config@,
                mode_literals.deep_view(),
                transform_literal@,
            ),
    {
        let input = self.inputs[0].name.as_str();
        let labels = self.outputs[0].name.as_str();
        let probs = self.outputs[1].name.as_str();
        let c = &self.config;
        let ready = c.nodes_treeids.is_some() && c.nodes_nodeids.is_some() && c.nodes_modes.is_some()
            && c.class_treeids.is_some() && c.class_nodeids.is_some() && c.class_ids.is_some()
            && c.class_weights.is_some();
        let mut s = String::from_str("let (");
        s.append(labels);
        s.append(", ");
        s.append(probs);
        s.append(") = ");
        if ready {
            push_full(&mut s, input, labels, probs, c, mode_literals, transform_literal);
        } else {
            push_fallback(&mut s, labels, probs);
        }
        s.append(";");
        assert(s@ =~= tree_forward_text(
            input@,
            labels@,
            probs@,
            self.config@,
            mode_literals.deep_view(),
            transform_literal@,
        ));
        s
    }

    /// The code of the forward step, with the node modes and the post
    /// transform written as string literals: each literal starts and ends with
    /// a double quote, and is the text between double quotes when the text is
    /// printable ASCII without `"` and `\`.
    pub fn forward(&self) -> (r: String)
        requires
            self.inputs.len() >= 1,
            self.outputs.len() >= 2,
            tree_literals_finite(self.config@),
        ensures
            exists|lits: Seq<Seq<char>>, t: Seq<char>|
                #![trigger literals_of_all(modes_of(self.config@), lits), literal_of(tree_transform_of(self.config@), t)]
                {
                    &&& literals_of_all(modes_of(self.config@), lits)
                    &&& literal_of(tree_transform_of(self.config@), t)
                    &&& r@ == tree_forward_text(
                        self.inputs@[0].name@,
                        self.outputs@[0].name@,
                        self.outputs@[1].name@,
                        self.config@,
                        lits,
                        t,
                    )
                },
            all_plain(modes_of(self.config@)) && plain_text(tree_transform_of(self.config@)) ==> r@
                == tree_forward_text(
                self.inputs@[0].name@,
                self.outputs@[0].name@,
                self.outputs@[1].name@,
                self.config@,
                quoted_all(modes_of(self.config@)),
                quoted(tree_transform_of(self.config@)),
            ),
    {
        let lits = match &self.config.nodes_modes {
            Some(m) => literals_of(m),
            None => Vec::new(),
        };
        let transform = match &self.config.post_transform {
            Some(p) => p.as_str(),
            None => "NONE",
        };
        let t = string_literal(transform);
        proof {
            if self.config.nodes_modes is None {
                assert(lits.deep_view() =~= Seq::<Seq<char>>::empty());
            }
            reveal_strlit("NONE");
            assert(transform@ == tree_transform_of(self.config@));
            let modes = modes_of(self.config@);
            assert(literals_of_all(modes, lits.deep_view()));
            if all_plain(modes) {
                assert forall|i: int| 0 <= i < modes.len() implies lits.deep_view()[i] == quoted_all(modes)[i] by {
                    assert(literal_of(modes[i], lits.deep_view()[i]));
                    assert(plain_text(modes[i]));
                }
                assert(lits.deep_view() =~= quoted_all(modes));
            }
        }
        let r = self.forward_with_literals(&lits, t.as_str());
        proof {
            assert(literals_of_all(modes_of(self.config@), lits.deep_view()));
            assert(literal_of(tree_transform_of(self.config@), t@));
        }
        r
    }
}

} // verus!
