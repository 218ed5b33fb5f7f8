//! The optimizers: stateful update rules that consume per-layer gradients
//! and mutate the layers' weights and biases in place. Each variant keeps
//! auxiliary tensors aligned position by position with the layer list; that
//! alignment is established by `initialize` and preserved by every update.

pub mod adam;
pub mod rmsprop;
pub mod sgd;

use vstd::prelude::*;

use crate::layer::DenseLayer;
use crate::scalar::ScalarOps;
use crate::matrix::Matrix;

verus! {

/// Each tensor has the shape of the matching layer's weight matrix.
pub open spec fn aligned_with_weights(ts: Seq<Matrix>, layers: Seq<DenseLayer>) -> bool {
    &&& ts.len() == layers.len()
    &&& forall|i: int|
        0 <= i < ts.len()
            ==> ts[i].wf() && ts[i].rows == layers[i].weights.rows && ts[i].cols
            == layers[i].weights.cols
}

/// Each tensor has the shape of the matching layer's bias row.
pub open spec fn aligned_with_biases(ts: Seq<Matrix>, layers: Seq<DenseLayer>) -> bool {
    &&& ts.len() == layers.len()
    &&& forall|i: int|
        0 <= i < ts.len()
            ==> ts[i].wf() && ts[i].rows == layers[i].biases.rows && ts[i].cols
            == layers[i].biases.cols
}

/// Every layer is well formed.
pub open spec fn layers_wf(layers: Seq<DenseLayer>) -> bool {
    forall|i: int| 0 <= i < layers.len() ==> layers[i].wf()
}

/// The gradient lists run parallel to the layer list: one weight gradient
/// shaped like each weight matrix and one bias gradient shaped like each
/// bias row.
pub open spec fn grads_match(
    layers: Seq<DenseLayer>,
    nabla_bs: Seq<Matrix>,
    nabla_ws: Seq<Matrix>,
) -> bool {
    &&& nabla_bs.len() == layers.len()
    &&& nabla_ws.len() == layers.len()
    &&& forall|i: int|
        0 <= i < layers.len()
            ==> nabla_ws[i].wf() && nabla_ws[i].rows == layers[i].weights.rows
            && nabla_ws[i].cols == layers[i].weights.cols && nabla_bs[i].wf()
            && nabla_bs[i].rows == layers[i].biases.rows && nabla_bs[i].cols
            == layers[i].biases.cols
}

/// The second layer list keeps the first one's layout: same length, and
/// position by position the same declared width, activation and tensor
/// shapes. Only the tensor values may differ.
pub open spec fn same_layout(a: Seq<DenseLayer>, b: Seq<DenseLayer>) -> bool {
    &&& b.len() == a.len()
    &&& forall|i: int|
        0 <= i < a.len()
            ==> b[i].input_size == a[i].input_size && b[i].activation == a[i].activation
            && b[i].weights.rows == a[i].weights.rows && b[i].weights.cols
            == a[i].weights.cols && b[i].biases.rows == a[i].biases.rows
            && b[i].biases.cols == a[i].biases.cols && b[i].wf()
}

/// One of the three optimizer variants, dispatched by a closed match.
pub enum Optimizer {
    /// Gradient descent with momentum.
    Sgd(sgd::SGD),
    /// Root-mean-square propagation.
    RmsProp(rmsprop::RMS_PROP),
    /// Adaptive moment estimation.
    Adam(adam::ADAM),
}

impl Optimizer {
    /// The variant's auxiliary tensors run parallel to the layer list.
    pub open spec fn aligned(self, layers: Seq<DenseLayer>) -> bool {
        match self {
            Optimizer::Sgd(o) => o.aligned(layers),
            Optimizer::RmsProp(o) => o.aligned(layers),
            Optimizer::Adam(o) => o.aligned(layers),
        }
    }

    /// How many updates the variant has completed.
    pub open spec fn iteration(self) -> usize {
        match self {
            Optimizer::Sgd(o) => o.iteration,
            Optimizer::RmsProp(o) => o.iteration,
            Optimizer::Adam(o) => o.iteration,
        }
    }

    /// The name of the variant, as the summary prints it.
    pub open spec fn name_spec(self) -> Seq<char> {
        match self {
            Optimizer::Sgd(_) => "SGD"@,
            Optimizer::RmsProp(_) => "RMS_PROP"@,
            Optimizer::Adam(_) => "ADAM"@,
        }
    }

    /// The name of the variant.
    pub fn name(&self) -> (r: &str)
        ensures
            r@ == self.name_spec(),
    {
        match self {
            Optimizer::Sgd(_) => "SGD",
            Optimizer::RmsProp(_) => "RMS_PROP",
            Optimizer::Adam(_) => "ADAM",
        }
    }

    /// Discards any previous auxiliary tensors and allocates fresh zero
    /// tensors aligned with the given layers.
    pub fn initialize(&mut self, layers: &Vec<DenseLayer>)
        requires
            layers_wf(layers@),
        ensures
            final(self).aligned(layers@),
            final(self).iteration() == old(self).iteration(),
    {
        match self {
            Optimizer::Sgd(o) => o.initialize(layers),
            Optimizer::RmsProp(o) => o.initialize(layers),
            Optimizer::Adam(o) => o.initialize(layers),
        }
    }

    /// The variant's learning-rate decay step. Touches neither the update
    /// count nor the auxiliary tensors.
    pub fn pre_update<B: ScalarOps>(&mut self)
        ensures
            final(self).iteration() == old(self).iteration(),
            forall|ls: Seq<DenseLayer>|
                old(self).aligned(ls) ==> #[trigger] final(self).aligned(ls),
    {
        match self {
            Optimizer::Sgd(o) => o.pre_update::<B>(),
            Optimizer::RmsProp(o) => o.pre_update::<B>(),
            Optimizer::Adam(o) => o.pre_update::<B>(),
        }
    }

    /// Counts one completed update. Touches no auxiliary tensors.
    pub fn post_update(&mut self)
        requires
            old(self).iteration() < usize::MAX,
        ensures
            final(self).iteration() == old(self).iteration() + 1,
            forall|ls: Seq<DenseLayer>|
                old(self).aligned(ls) ==> #[trigger] final(self).aligned(ls),
    {
        match self {
            Optimizer::Sgd(o) => o.post_update(),
            Optimizer::RmsProp(o) => o.post_update(),
            Optimizer::Adam(o) => o.post_update(),
        }
    }

    /// The variant's update rule, applied layer by layer: mutates every
    /// layer's weights and biases in place, keeps each layer's layout, and
    /// keeps the auxiliary tensors aligned with the layers.
    pub fn update_params<B: ScalarOps>(
        &mut self,
        layers: &mut Vec<DenseLayer>,
        nabla_bs: &Vec<Matrix>,
        nabla_ws: &Vec<Matrix>,
    )
        requires
            old(self).iteration() < usize::MAX,
            layers_wf(old(layers)@),
            old(self).aligned(old(layers)@),
            grads_match(old(layers)@, nabla_bs@, nabla_ws@),
        ensures
            same_layout(old(layers)@, final(layers)@),
            final(self).aligned(final(layers)@),
            final(self).iteration() == old(self).iteration(),
    {
        match self {
            Optimizer::Sgd(o) => o.update_params::<B>(layers, nabla_bs, nabla_ws),
            Optimizer::RmsProp(o) => o.update_params::<B>(layers, nabla_bs, nabla_ws),
            Optimizer::Adam(o) => o.update_params::<B>(layers, nabla_bs, nabla_ws),
        }
    }
}

} // verus!
