//! Orçamento de recursos de uma geração: a decisão tomada a partir dos recursos
//! que excederam o disponível.

use vstd::prelude::*;

verus! {

/// Decisão sobre um pedido de geração.
#[derive(Debug, Clone, Copy, PartialEq, Eq, Structural)]
pub enum Decision {
    Accept,
    Degrade,
    Split,
    Defer,
    Confirm,
    Reject,
}

/// Recurso orçado.
#[derive(Debug, Clone, Copy, PartialEq, Eq, Structural)]
pub enum Recurso {
    Triangles,
    Instances,
    DrawCalls,
    GeometryMb,
    TexturesMb,
    FramebufferMb,
    Materials,
    VegetationOverdraw,
    CpuMs,
    GpuUploadMs,
    CacheMb,
}

/// Nome do recurso, como aparece nos relatórios.
pub open spec fn nome_recurso_spec(r: Recurso) -> Seq<char> {
    match r {
        Recurso::Triangles => "triangles"@,
        Recurso::Instances => "instances"@,
        Recurso::DrawCalls => "draw_calls"@,
        Recurso::GeometryMb => "geometry_mb"@,
        Recurso::TexturesMb => "textures_mb"@,
        Recurso::FramebufferMb => "framebuffer_mb"@,
        Recurso::Materials => "materials"@,
        Recurso::VegetationOverdraw => "vegetation_overdraw"@,
        Recurso::CpuMs => "cpu_ms"@,
        Recurso::GpuUploadMs => "gpu_upload_ms"@,
        Recurso::CacheMb => "cache_mb"@,
    }
}

impl Recurso {
    /// Nome do recurso nos relatórios.
    pub fn nome(self) -> (r: &'static str)
        ensures
            r@ == nome_recurso_spec(self),
    {
        match self {
            Recurso::Triangles => "triangles",
            Recurso::Instances => "instances",
            Recurso::DrawCalls => "draw_calls",
            Recurso::GeometryMb => "geometry_mb",
            Recurso::TexturesMb => "textures_mb",
            Recurso::FramebufferMb => "framebuffer_mb",
            Recurso::Materials => "materials",
            Recurso::VegetationOverdraw => "vegetation_overdraw",
            Recurso::CpuMs => "cpu_ms",
            Recurso::GpuUploadMs => "gpu_upload_ms",
            Recurso::CacheMb => "cache_mb",
        }
    }
}

/// Excesso que se resolve dividindo o pedido em partes: geometria, instâncias,
/// chamadas de desenho, texturas e cache.
pub open spec fn divisivel(r: Recurso) -> bool {
    r == Recurso::Triangles || r == Recurso::Instances || r == Recurso::DrawCalls
        || r == Recurso::GeometryMb || r == Recurso::TexturesMb || r == Recurso::CacheMb
}

/// Decisão a partir dos recursos excedidos: aceitar se nada excedeu, dividir se
/// todo excesso é divisível, recusar senão.
pub open spec fn decisao_spec(excedidos: Seq<Recurso>) -> Decision {
    if excedidos.len() == 0 {
        Decision::Accept
    } else if forall|i: int| 0 <= i < excedidos.len() ==> #[trigger] divisivel(excedidos[i]) {
        Decision::Split
    } else {
        Decision::Reject
    }
}

fn divisivel_exec(r: Recurso) -> (b: bool)
    ensures
        b == divisivel(r),
{
    match r {
        Recurso::Triangles | Recurso::Instances | Recurso::DrawCalls | Recurso::GeometryMb
        | Recurso::TexturesMb | Recurso::CacheMb => true,
        _ => false,
    }
}

/// Decide o que fazer com um pedido dados os recursos que excederam o disponível.
pub fn decidir(excedidos: &[Recurso]) -> (d: Decision)
    ensures
        d == decisao_spec(excedidos@),
{
    if excedidos.len() == 0 {
        return Decision::Accept;
    }
    let mut i: usize = 0;
    while i < excedidos.len()
        invariant
            i <= excedidos.len(),
            forall|j: int| 0 <= j < i ==> #[trigger] divisivel(excedidos@[j]),
        decreases excedidos.len() - i,
    {
        if !divisivel_exec(excedidos[i]) {
            return Decision::Reject;
        }
        i = i + 1;
    }
    Decision::Split
}

/// A decisão só aceita o que não excedeu nada e nunca divide um excesso de
/// recurso que não se divide (framebuffer, materiais, overdraw, CPU, upload).
pub proof fn lei_decisao(excedidos: Seq<Recurso>, i: int)
    requires
        0 <= i < excedidos.len(),
    ensures
        decisao_spec(excedidos) != Decision::Accept,
        !divisivel(excedidos[i]) ==> decisao_spec(excedidos) == Decision::Reject,
{
}

/// Nome de recurso cujo excesso se divide.
pub open spec fn nome_divisivel(n: Seq<char>) -> bool {
    n == "triangles"@ || n == "instances"@ || n == "draw_calls"@ || n == "geometry_mb"@ || n == "textures_mb"@ || n == "cache_mb"@
}

/// Cada recurso aparece nos relatórios com o seu próprio nome.
pub proof fn lei_tabela_dos_recursos()
    ensures
        nome_recurso_spec(Recurso::Triangles) == "triangles"@,
        nome_recurso_spec(Recurso::Instances) == "instances"@,
        nome_recurso_spec(Recurso::DrawCalls) == "draw_calls"@,
        nome_recurso_spec(Recurso::GeometryMb) == "geometry_mb"@,
        nome_recurso_spec(Recurso::TexturesMb) == "textures_mb"@,
        nome_recurso_spec(Recurso::FramebufferMb) == "framebuffer_mb"@,
        nome_recurso_spec(Recurso::Materials) == "materials"@,
        nome_recurso_spec(Recurso::VegetationOverdraw) == "vegetation_overdraw"@,
        nome_recurso_spec(Recurso::CpuMs) == "cpu_ms"@,
        nome_recurso_spec(Recurso::GpuUploadMs) == "gpu_upload_ms"@,
        nome_recurso_spec(Recurso::CacheMb) == "cache_mb"@,
{
}

/// Um excesso se resolve dividindo o pedido exatamente quando o recurso é
/// triângulos, instâncias, chamadas de desenho, memória de geometria, memória de
/// texturas ou cache; os demais (framebuffer, materiais, overdraw de vegetação,
/// CPU e upload para a GPU) não se dividem.
pub proof fn lei_divisivel_pelo_nome(r: Recurso)
    ensures
        divisivel(r) <==> (nome_recurso_spec(r) == "triangles"@ || nome_recurso_spec(r) == "instances"@ || nome_recurso_spec(r) == "draw_calls"@ || nome_recurso_spec(r) == "geometry_mb"@ || nome_recurso_spec(r) == "textures_mb"@ || nome_recurso_spec(r) == "cache_mb"@),
{
    reveal_strlit("triangles");
    assert("triangles"@.len() == 9 && "triangles"@[0] == 't' && "triangles"@[1] == 'r' && "triangles"@[2] == 'i' && "triangles"@[3] == 'a' && "triangles"@[4] == 'n' && "triangles"@[5] == 'g' && "triangles"@[6] == 'l' && "triangles"@[7] == 'e' && "triangles"@[8] == 's');
    reveal_strlit("instances");
    assert("instances"@.len() == 9 && "instances"@[0] == 'i' && "instances"@[1] == 'n' && "instances"@[2] == 's' && "instances"@[3] == 't' && "instances"@[4] == 'a' && "instances"@[5] == 'n' && "instances"@[6] == 'c' && "instances"@[7] == 'e' && "instances"@[8] == 's');
    reveal_strlit("draw_calls");
    assert("draw_calls"@.len() == 10 && "draw_calls"@[0] == 'd' && "draw_calls"@[1] == 'r' && "draw_calls"@[2] == 'a' && "draw_calls"@[3] == 'w' && "draw_calls"@[4] == '_' && "draw_calls"@[5] == 'c' && "draw_calls"@[6] == 'a' && "draw_calls"@[7] == 'l' && "draw_calls"@[8] == 'l' && "draw_calls"@[9] == 's');
    reveal_strlit("geometry_mb");
    assert("geometry_mb"@.len() == 11 && "geometry_mb"@[0] == 'g' && "geometry_mb"@[1] == 'e' && "geometry_mb"@[2] == 'o' && "geometry_mb"@[3] == 'm' && "geometry_mb"@[4] == 'e' && "geometry_mb"@[5] == 't' && "geometry_mb"@[6] == 'r' && "geometry_mb"@[7] == 'y' && "geometry_mb"@[8] == '_' && "geometry_mb"@[9] == 'm' && "geometry_mb"@[10] == 'b');
    reveal_strlit("textures_mb");
    assert("textures_mb"@.len() == 11 && "textures_mb"@[0] == 't' && "textures_mb"@[1] == 'e' && "textures_mb"@[2] == 'x' && "textures_mb"@[3] == 't' && "textures_mb"@[4] == 'u' && "textures_mb"@[5] == 'r' && "textures_mb"@[6] == 'e' && "textures_mb"@[7] == 's' && "textures_mb"@[8] == '_' && "textures_mb"@[9] == 'm' && "textures_mb"@[10] == 'b');
    reveal_strlit("framebuffer_mb");
    assert("framebuffer_mb"@.len() == 14 && "framebuffer_mb"@[0] == 'f' && "framebuffer_mb"@[1] == 'r' && "framebuffer_mb"@[2] == 'a' && "framebuffer_mb"@[3] == 'm' && "framebuffer_mb"@[4] == 'e' && "framebuffer_mb"@[5] == 'b' && "framebuffer_mb"@[6] == 'u' && "framebuffer_mb"@[7] == 'f' && "framebuffer_mb"@[8] == 'f' && "framebuffer_mb"@[9] == 'e' && "framebuffer_mb"@[10] == 'r' && "framebuffer_mb"@[11] == '_' && "framebuffer_mb"@[12] == 'm' && "framebuffer_mb"@[13] == 'b');
    reveal_strlit("materials");
    assert("materials"@.len() == 9 && "materials"@[0] == 'm' && "materials"@[1] == 'a' && "materials"@[2] == 't' && "materials"@[3] == 'e' && "materials"@[4] == 'r' && "materials"@[5] == 'i' && "materials"@[6] == 'a' && "materials"@[7] == 'l' && "materials"@[8] == 's');
    reveal_strlit("vegetation_overdraw");
    assert("vegetation_overdraw"@.len() == 19 && "vegetation_overdraw"@[0] == 'v' && "vegetation_overdraw"@[1] == 'e' && "vegetation_overdraw"@[2] == 'g' && "vegetation_overdraw"@[3] == 'e' && "vegetation_overdraw"@[4] == 't' && "vegetation_overdraw"@[5] == 'a' && "vegetation_overdraw"@[6] == 't' && "vegetation_overdraw"@[7] == 'i' && "vegetation_overdraw"@[8] == 'o' && "vegetation_overdraw"@[9] == 'n' && "vegetation_overdraw"@[10] == '_' && "vegetation_overdraw"@[11] == 'o' && "vegetation_overdraw"@[12] == 'v' && "vegetation_overdraw"@[13] == 'e' && "vegetation_overdraw"@[14] == 'r' && "vegetation_overdraw"@[15] == 'd' && "vegetation_overdraw"@[16] == 'r' && "vegetation_overdraw"@[17] == 'a' && "vegetation_overdraw"@[18] == 'w');
    reveal_strlit("cpu_ms");
    assert("cpu_ms"@.len() == 6 && "cpu_ms"@[0] == 'c' && "cpu_ms"@[1] == 'p' && "cpu_ms"@[2] == 'u' && "cpu_ms"@[3] == '_' && "cpu_ms"@[4] == 'm' && "cpu_ms"@[5] == 's');
    reveal_strlit("gpu_upload_ms");
    assert("gpu_upload_ms"@.len() == 13 && "gpu_upload_ms"@[0] == 'g' && "gpu_upload_ms"@[1] == 'p' && "gpu_upload_ms"@[2] == 'u' && "gpu_upload_ms"@[3] == '_' && "gpu_upload_ms"@[4] == 'u' && "gpu_upload_ms"@[5] == 'p' && "gpu_upload_ms"@[6] == 'l' && "gpu_upload_ms"@[7] == 'o' && "gpu_upload_ms"@[8] == 'a' && "gpu_upload_ms"@[9] == 'd' && "gpu_upload_ms"@[10] == '_' && "gpu_upload_ms"@[11] == 'm' && "gpu_upload_ms"@[12] == 's');
    reveal_strlit("cache_mb");
    assert("cache_mb"@.len() == 8 && "cache_mb"@[0] == 'c' && "cache_mb"@[1] == 'a' && "cache_mb"@[2] == 'c' && "cache_mb"@[3] == 'h' && "cache_mb"@[4] == 'e' && "cache_mb"@[5] == '_' && "cache_mb"@[6] == 'm' && "cache_mb"@[7] == 'b');
}

/// A decisão pelos nomes dos recursos excedidos: aceitar sem excesso; dividir
/// quando todo recurso excedido é um dos seis divisíveis; recusar quando algum
/// não é.
pub proof fn lei_decisao_pelos_nomes(excedidos: Seq<Recurso>)
    ensures
        excedidos.len() == 0 ==> decisao_spec(excedidos) == Decision::Accept,
        excedidos.len() > 0 && (forall|i: int| 0 <= i < excedidos.len() ==> #[trigger] nome_divisivel(nome_recurso_spec(excedidos[i])))
            ==> decisao_spec(excedidos) == Decision::Split,
        (exists|i: int| 0 <= i < excedidos.len() && !#[trigger] nome_divisivel(nome_recurso_spec(excedidos[i])))
            ==> decisao_spec(excedidos) == Decision::Reject,
{
    assert forall|r: Recurso| divisivel(r) <==> #[trigger] nome_divisivel(nome_recurso_spec(r)) by {
        lei_divisivel_pelo_nome(r);
    }
    if forall|i: int| 0 <= i < excedidos.len() ==> #[trigger] nome_divisivel(nome_recurso_spec(excedidos[i])) {
        assert forall|i: int| 0 <= i < excedidos.len() implies #[trigger] divisivel(excedidos[i]) by {
            assert(nome_divisivel(nome_recurso_spec(excedidos[i])));
        }
    }
}

/// Erros do orçamento.
#[derive(Debug, Clone, Copy, PartialEq, Eq)]
pub enum BudgetError {
    /// Recurso com valor inválido (negativo ou não finito).
    InvalidResource(&'static str),
}

} // verus!
