# onnx_ml_nodes

Node processors (OneHotEncoder, ZipMap, SVMRegressor, TreeEnsembleClassifier)
and Rust code generators (OneHotEncoder, SVMRegressor, TreeEnsembleClassifier,
Scaler, Imputer) for operators of the ONNX-ML domain, written in Verus and
proved against their contracts.

- `src/ir.rs`: the intermediate representation that the processors read: element
  types, argument types, attribute values, raw nodes. A 32-bit float is held as
  its bit pattern and its shortest decimal text.
- `src/processor.rs`: node specifications, processing errors and their messages,
  and the rendering of types and attribute values in messages.
- `src/node/`: one processor per operator: reading and checking the attributes,
  inferring the output types, building the typed node; and the node builders.
- `src/codegen/`: the code that each node contributes to a generated burn model:
  its `forward` statement and, where it keeps data, its field.
- `src/text.rs`: decimal and literal texts, lists, and string literals (through
  `proc_macro2`).
- `app/`: glue to burn's element types, and the OneHotEncoder category field,
  whose categories are converted to floats.
- `tests/`: scenarios on concrete values.

Every function under `src/` states its result exactly, as a spec function of
its inputs; the laws that relate several of them are public proof functions
(`lemma_*`).
