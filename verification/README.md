# arcz

Núcleo verificado do ARCZ Designer: as regras, formatos e decisões do editor
de projetos e do gerador de entorno urbano, escritos em Verus e provados
contra contratos.

## Organização

- `src/` — a biblioteca, toda verificada:
  - `texto`, `calendario`, `determinismo` — blocos de base (texto como
    sequência de caracteres, datas civis, gerador SplitMix64, SHA-256 em hex);
  - `workspace` — identificadores e caminhos de projetos, autosave, snapshots,
    lixeira, e as decisões de cada operação sobre o disco;
  - `cad` — o documento CAD: discriminadores de tipo, validação estrutural do
    documento inteiro, inserção, exclusão em cascata e a criação estrutural de
    um cômodo;
  - `geo` — ladrilhos web-mercator (TMS, pai, faixas);
  - `jobs`, `orcamento`, `plugins` — fila de tarefas, decisão de orçamento e
    registro/autorização de plugins;
  - `biblioteca`, `osm`, `modelo`, `geracao`, `fachada`, `procedural`,
    `proveniencia`, `regiao`, `bim`, `earth` — catálogo de peças, classificação
    de etiquetas OSM, montagem de GLB, leitura de KMZ e KML e os tipos de cada
    domínio.
- `tests/` — testes executáveis da biblioteca.
- `app/` — a casca em Rust comum: linha de comando, disco, serde, e as
  contas em ponto flutuante que a biblioteca não representa (projeção dos
  tiles, quantidades do orçamento, canais `f32` e o tamanho reduzido das
  texturas, sorteios em `f64`). A leitura do ZIP de um KMZ e a redução de
  texturas ficam na biblioteca, que chama as crates `zip` e `image`.

As leis que a biblioteca prova (o que uma operação preserva, o que outra
desfaz) estão em `src/`, como funções de prova `pub proof fn lei_*` ou nas
`ensures` das operações. As que dependem de geometria em ponto flutuante não
estão entre elas.
